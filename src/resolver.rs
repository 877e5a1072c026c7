//! Where the backend executable may be installed, and which location wins.
use vstd::prelude::*;

verus! {

/// The operating system family; it decides only the executable's suffix.
#[derive(PartialEq, Eq, Structural, Clone, Copy, Debug)]
pub enum Platform {
    Windows,
    Other,
}

/// File name of the backend executable on a platform.
pub open spec fn binary_name_of(platform: Platform) -> Seq<char> {
    match platform {
        Platform::Windows => "backend-server.exe"@,
        Platform::Other => "backend-server"@,
    }
}

/// File name of the backend executable on `platform`.
pub fn backend_binary_name(platform: Platform) -> (r: &'static str)
    ensures
        r@ == binary_name_of(platform),
{
    match platform {
        Platform::Windows => "backend-server.exe",
        Platform::Other => "backend-server",
    }
}

/// The directories that the host environment could name; `None` where the
/// lookup failed.
pub struct BaseDirs {
    /// Directory of the application's executables.
    pub executable_dir: Option<String>,
    /// Directory of the application's bundled resources.
    pub resource_dir: Option<String>,
    /// Parent directory of the running binary.
    pub current_exe_parent: Option<String>,
}

/// A location to look for the executable: a base directory followed by the
/// path segments to join onto it, in order.
pub struct CandidatePath {
    /// The base directory.
    pub base: String,
    /// Path segments below it, the file name last.
    pub segments: Vec<String>,
}

impl CandidatePath {
    /// The base directory and the segments as character sequences.
    pub open spec fn parts(&self) -> (Seq<char>, Seq<Seq<char>>) {
        (self.base@, self.segments@.map_values(|s: String| s@))
    }
}

/// The candidates contributed by one base directory, nothing where it is
/// missing.
pub open spec fn under(dir: Option<String>, segments: Seq<Seq<char>>) -> Seq<(Seq<char>, Seq<Seq<char>>)> {
    match dir {
        Some(d) => seq![(d@, segments)],
        None => Seq::empty(),
    }
}

/// The candidate locations in priority order: the executable directory, the
/// resource directory's `binaries` subdirectory, the resource directory, and
/// the running binary's directory; a missing base directory is skipped.
pub open spec fn candidates_of(dirs: &BaseDirs, platform: Platform) -> Seq<(Seq<char>, Seq<Seq<char>>)> {
    let name = binary_name_of(platform);
    under(dirs.executable_dir, seq![name])
        + under(dirs.resource_dir, seq!["binaries"@, name])
        + under(dirs.resource_dir, seq![name])
        + under(dirs.current_exe_parent, seq![name])
}

fn clone_dir(dir: &Option<String>) -> (r: Option<String>)
    ensures
        r == *dir,
{
    match dir {
        Some(d) => Some(d.clone()),
        None => None,
    }
}

fn push_candidate(out: &mut Vec<CandidatePath>, dir: Option<String>, segments: Vec<String>)
    ensures
        final(out)@.map_values(|c: CandidatePath| c.parts()) == old(out)@.map_values(
            |c: CandidatePath| c.parts(),
        ) + under(dir, segments@.map_values(|s: String| s@)),
{
    let ghost before = old(out)@;
    match dir {
        Some(d) => {
            out.push(CandidatePath { base: d, segments });
        },
        None => {},
    }
    assert(out@.map_values(|c: CandidatePath| c.parts()) =~= before.map_values(
        |c: CandidatePath| c.parts(),
    ) + under(dir, segments@.map_values(|s: String| s@)));
}

fn name_segments(first: Option<&str>, name: &str) -> (r: Vec<String>)
    ensures
        r@.map_values(|s: String| s@) == match first {
            Some(f) => seq![f@, name@],
            None => seq![name@],
        },
{
    let mut v: Vec<String> = Vec::new();
    match first {
        Some(f) => {
            v.push(String::from_str(f));
        },
        None => {},
    }
    v.push(String::from_str(name));
    proof {
        match first {
            Some(f) => {
                assert(v@.map_values(|s: String| s@) =~= seq![f@, name@]);
            },
            None => {
                assert(v@.map_values(|s: String| s@) =~= seq![name@]);
            },
        }
    }
    v
}

/// Builds the ordered list of places where the backend executable may be.
pub fn candidate_paths(dirs: &BaseDirs, platform: Platform) -> (r: Vec<CandidatePath>)
    ensures
        r@.map_values(|c: CandidatePath| c.parts()) == candidates_of(dirs, platform),
{
    let name = backend_binary_name(platform);
    let mut out: Vec<CandidatePath> = Vec::new();
    assert(out@.map_values(|c: CandidatePath| c.parts()) =~= Seq::empty());
    push_candidate(&mut out, clone_dir(&dirs.executable_dir), name_segments(None, name));
    push_candidate(
        &mut out,
        clone_dir(&dirs.resource_dir),
        name_segments(Some("binaries"), name),
    );
    push_candidate(&mut out, clone_dir(&dirs.resource_dir), name_segments(None, name));
    push_candidate(&mut out, clone_dir(&dirs.current_exe_parent), name_segments(None, name));
    out
}

/// Index of the first candidate from `from` on, among the first `n`, whose
/// marker says it exists; a candidate without a marker counts as absent.
pub open spec fn first_existing_from(exists: Seq<bool>, n: int, from: int) -> Option<int>
    decreases n - from,
{
    if from < 0 || from >= n || from >= exists.len() {
        None
    } else if exists[from] {
        Some(from)
    } else {
        first_existing_from(exists, n, from + 1)
    }
}

/// The candidate chosen among `candidates`: the first that exists.
pub open spec fn chosen(candidates: Seq<CandidatePath>, exists: Seq<bool>) -> Option<CandidatePath> {
    match first_existing_from(exists, candidates.len() as int, 0) {
        Some(i) => Some(candidates[i]),
        None => None,
    }
}

/// Picks the first candidate that exists. `exists[i]` tells whether
/// candidate `i` exists on disk; a candidate without a marker counts as
/// absent. `None` when no candidate exists.
pub fn resolve_backend_sidecar_path(candidates: Vec<CandidatePath>, exists: &Vec<bool>) -> (r:
    Option<CandidatePath>)
    ensures
        r == chosen(candidates@, exists@),
{
    let mut pool = candidates;
    let n = pool.len();
    let mut i: usize = 0;
    while i < n && i < exists.len()
        invariant
            pool@ == candidates@,
            n == candidates@.len(),
            i <= n,
            first_existing_from(exists@, n as int, 0) == first_existing_from(
                exists@,
                n as int,
                i as int,
            ),
        decreases n - i,
    {
        if exists[i] {
            let c = pool.remove(i);
            return Some(c);
        }
        i = i + 1;
    }
    None
}

/// Candidate `i` is the first of the first `n` candidates that exists.
pub open spec fn is_first_existing(exists: Seq<bool>, n: int, i: int) -> bool {
    &&& 0 <= i < n
    &&& i < exists.len()
    &&& exists[i]
    &&& forall|j: int| 0 <= j < i ==> !exists[j]
}

/// None of the first `n` candidates exists.
pub open spec fn none_exists(exists: Seq<bool>, n: int) -> bool {
    forall|j: int| 0 <= j < n && j < exists.len() ==> !exists[j]
}

proof fn lemma_first_existing_from(exists: Seq<bool>, n: int, from: int)
    requires
        0 <= from,
        forall|j: int| 0 <= j < from && j < exists.len() ==> !exists[j],
    ensures
        match first_existing_from(exists, n, from) {
            Some(i) => is_first_existing(exists, n, i),
            None => none_exists(exists, n),
        },
    decreases n - from,
{
    if from < n && from < exists.len() && !exists[from] {
        lemma_first_existing_from(exists, n, from + 1);
    }
}

/// Whatever the markers, the chosen candidate is the first one that exists,
/// and nothing is chosen exactly when none exists.
pub proof fn lemma_choice_is_first_existing(candidates: Seq<CandidatePath>, exists: Seq<bool>)
    ensures
        chosen(candidates, exists) is None <==> none_exists(exists, candidates.len() as int),
        chosen(candidates, exists) matches Some(c) ==> exists|i: int|
            is_first_existing(exists, candidates.len() as int, i) && c == candidates[i],
{
    lemma_first_existing_from(exists, candidates.len() as int, 0);
    if let Some(i) = first_existing_from(exists, candidates.len() as int, 0) {
        assert(is_first_existing(exists, candidates.len() as int, i));
        assert(exists[i]);
    }
}

/// Which candidates after the first existing one exist makes no difference:
/// markers that agree up to and including it give the same choice.
pub proof fn lemma_choice_ignores_later_candidates(
    candidates: Seq<CandidatePath>,
    a: Seq<bool>,
    b: Seq<bool>,
    i: int,
)
    requires
        is_first_existing(a, candidates.len() as int, i),
        i < b.len(),
        forall|j: int| 0 <= j <= i ==> a[j] == b[j],
    ensures
        chosen(candidates, a) == Some(candidates[i]),
        chosen(candidates, b) == Some(candidates[i]),
{
    let n = candidates.len() as int;
    lemma_first_existing_from(a, n, 0);
    lemma_first_existing_from(b, n, 0);
    assert(is_first_existing(b, n, i));
    assert(b[i]);
    assert(a[i]);
    if let Some(k) = first_existing_from(a, n, 0) {
        assert(is_first_existing(a, n, k));
        assert(k == i) by {
            if k < i {
                assert(!a[k]);
            } else if k > i {
                assert(!a[i]);
            }
        }
    }
    if let Some(k) = first_existing_from(b, n, 0) {
        assert(is_first_existing(b, n, k));
        assert(k == i) by {
            if k < i {
                assert(!b[k]);
            } else if k > i {
                assert(!b[i]);
            }
        }
    }
}

} // verus!
