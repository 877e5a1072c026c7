use sidecar_supervisor::resolver::{
    backend_binary_name, candidate_paths, resolve_backend_sidecar_path, BaseDirs, CandidatePath,
    Platform,
};

fn parts(c: &CandidatePath) -> (String, Vec<String>) {
    (c.base.clone(), c.segments.clone())
}

fn cand(base: &str, segs: &[&str]) -> CandidatePath {
    CandidatePath { base: base.to_string(), segments: segs.iter().map(|s| s.to_string()).collect() }
}

#[test]
fn binary_name_depends_on_platform() {
    assert_eq!(backend_binary_name(Platform::Windows), "backend-server.exe");
    assert_eq!(backend_binary_name(Platform::Other), "backend-server");
}

#[test]
fn candidates_follow_priority_order() {
    let dirs = BaseDirs {
        executable_dir: Some("/exe".to_string()),
        resource_dir: Some("/res".to_string()),
        current_exe_parent: Some("/cur".to_string()),
    };
    let got: Vec<_> = candidate_paths(&dirs, Platform::Other).iter().map(parts).collect();
    let want: Vec<_> = [
        cand("/exe", &["backend-server"]),
        cand("/res", &["binaries", "backend-server"]),
        cand("/res", &["backend-server"]),
        cand("/cur", &["backend-server"]),
    ]
    .iter()
    .map(parts)
    .collect();
    assert_eq!(got, want);
}

#[test]
fn missing_base_dirs_are_skipped() {
    let dirs = BaseDirs {
        executable_dir: None,
        resource_dir: Some("C:\\app".to_string()),
        current_exe_parent: None,
    };
    let got: Vec<_> = candidate_paths(&dirs, Platform::Windows).iter().map(parts).collect();
    let want: Vec<_> = [
        cand("C:\\app", &["binaries", "backend-server.exe"]),
        cand("C:\\app", &["backend-server.exe"]),
    ]
    .iter()
    .map(parts)
    .collect();
    assert_eq!(got, want);

    let none = BaseDirs { executable_dir: None, resource_dir: None, current_exe_parent: None };
    assert!(candidate_paths(&none, Platform::Other).is_empty());
}

#[test]
fn resolver_picks_binaries_subdirectory_when_only_it_exists() {
    let dirs = BaseDirs {
        executable_dir: Some("/a".to_string()),
        resource_dir: Some("/b".to_string()),
        current_exe_parent: None,
    };
    let candidates = candidate_paths(&dirs, Platform::Other);
    let chosen = resolve_backend_sidecar_path(candidates, &vec![false, true, false]).unwrap();
    assert_eq!(parts(&chosen), parts(&cand("/b", &["binaries", "backend-server"])));
}

#[test]
fn resolver_prefers_earliest_existing() {
    let candidates = vec![cand("/x", &["a"]), cand("/y", &["b"]), cand("/z", &["c"])];
    let chosen = resolve_backend_sidecar_path(candidates, &vec![false, true, true]).unwrap();
    assert_eq!(parts(&chosen), parts(&cand("/y", &["b"])));

    let candidates = vec![cand("/x", &["a"]), cand("/y", &["b"])];
    let chosen = resolve_backend_sidecar_path(candidates, &vec![true, true]).unwrap();
    assert_eq!(parts(&chosen), parts(&cand("/x", &["a"])));
}

#[test]
fn resolver_returns_none_when_nothing_exists() {
    let candidates = vec![cand("/x", &["a"]), cand("/y", &["b"])];
    assert!(resolve_backend_sidecar_path(candidates, &vec![false, false]).is_none());
    assert!(resolve_backend_sidecar_path(Vec::new(), &vec![true]).is_none());
}

#[test]
fn resolver_treats_missing_markers_as_absent() {
    let candidates = vec![cand("/x", &["a"]), cand("/y", &["b"])];
    assert!(resolve_backend_sidecar_path(candidates, &vec![false]).is_none());
}
