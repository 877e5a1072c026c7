//! The health-check exchange: the fixed request and the test on the reply.
use vstd::prelude::*;

verus! {

/// The request sent to the health endpoint on each probe attempt.
pub const HEALTH_REQUEST: &'static str = "GET /health HTTP/1.1\r\nHost: 127.0.0.1\r\nConnection: close\r\n\r\n";

/// `s` begins with `p`.
pub open spec fn has_prefix(s: Seq<char>, p: Seq<char>) -> bool {
    p.len() <= s.len() && s.subrange(0, p.len() as int) == p
}

/// Index of the first line feed in `s`, or `s.len()` when there is none.
pub open spec fn line_end(s: Seq<char>) -> int
    decreases s.len(),
{
    if s.len() == 0 {
        0
    } else if s[0] == '\n' {
        0
    } else {
        1 + line_end(s.drop_first())
    }
}

/// The first line of `s`, as `str::lines` yields it: the text before the
/// first line feed, without a carriage return that ends it. `None` for an
/// empty text, which has no lines.
pub open spec fn first_line(s: Seq<char>) -> Option<Seq<char>> {
    if s.len() == 0 {
        None
    } else {
        let line = s.subrange(0, line_end(s));
        if line.len() > 0 && line.last() == '\r' {
            Some(line.drop_last())
        } else {
            Some(line)
        }
    }
}

/// A reply counts as success when its first line starts with the status of
/// an HTTP/1.1 or HTTP/1.0 `200` response.
pub open spec fn is_success_response(s: Seq<char>) -> bool {
    match first_line(s) {
        Some(line) => has_prefix(line, "HTTP/1.1 200"@) || has_prefix(line, "HTTP/1.0 200"@),
        None => false,
    }
}

proof fn lemma_line_end_unique(s: Seq<char>, e: int)
    requires
        0 <= e <= s.len(),
        forall|i: int| 0 <= i < e ==> s[i] != '\n',
        e < s.len() ==> s[e] == '\n',
    ensures
        line_end(s) == e,
    decreases s.len(),
{
    if s.len() > 0 && s[0] != '\n' {
        let t = s.drop_first();
        assert forall|i: int| 0 <= i < e - 1 implies t[i] != '\n' by {
            assert(t[i] == s[i + 1]);
        }
        if e - 1 < t.len() {
            assert(t[e - 1] == s[e]);
        }
        lemma_line_end_unique(t, e - 1);
    }
}

/// Whether the first `n` characters of `s` are those of `p`.
fn prefix_matches(s: &str, n: usize, p: &str) -> (r: bool)
    requires
        n <= s@.len(),
        p@.len() <= n,
    ensures
        r == (s@.subrange(0, p@.len() as int) == p@),
{
    let plen = p.unicode_len();
    let mut i: usize = 0;
    while i < plen
        invariant
            plen == p@.len(),
            plen <= n <= s@.len(),
            i <= plen,
            forall|j: int| 0 <= j < i ==> s@[j] == p@[j],
        decreases plen - i,
    {
        if s.get_char(i) != p.get_char(i) {
            assert(s@.subrange(0, p@.len() as int)[i as int] != p@[i as int]);
            return false;
        }
        i = i + 1;
    }
    assert(s@.subrange(0, p@.len() as int) =~= p@);
    true
}

/// Whether a health-check reply reports success: its first line begins with
/// `HTTP/1.1 200` or `HTTP/1.0 200`. Any other status, and text that is not
/// an HTTP reply at all, is not success.
pub fn response_is_success(response: &str) -> (r: bool)
    ensures
        r == is_success_response(response@),
{
    let len = response.unicode_len();
    if len == 0 {
        return false;
    }
    let mut end: usize = 0;
    while end < len && response.get_char(end) != '\n'
        invariant
            len == response@.len(),
            end <= len,
            forall|i: int| 0 <= i < end ==> response@[i] != '\n',
        decreases len - end,
    {
        end = end + 1;
    }
    proof {
        lemma_line_end_unique(response@, end as int);
    }
    let mut line_len: usize = end;
    if end > 0 && response.get_char(end - 1) == '\r' {
        line_len = end - 1;
    }
    let ghost line = first_line(response@)->Some_0;
    assert(line =~= response@.subrange(0, line_len as int));
    let p11 = "HTTP/1.1 200";
    let p10 = "HTTP/1.0 200";
    let ok11 = line_len >= p11.unicode_len() && prefix_matches(response, line_len, p11);
    let ok10 = line_len >= p10.unicode_len() && prefix_matches(response, line_len, p10);
    proof {
        if line_len >= p11@.len() {
            assert(line.subrange(0, p11@.len() as int) =~= response@.subrange(0, p11@.len() as int));
        }
        if line_len >= p10@.len() {
            assert(line.subrange(0, p10@.len() as int) =~= response@.subrange(0, p10@.len() as int));
        }
    }
    ok11 || ok10
}

} // verus!
