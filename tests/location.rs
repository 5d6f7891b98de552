use backend_supervisor::location::{
    candidate_locations, lacks_exec_permission, resolve_location, with_exec_permission, Root,
};

fn parts(root: Root, components: &[&str]) -> (Root, Vec<String>) {
    (root, components.iter().map(|c| c.to_string()).collect())
}

#[test]
fn candidates_follow_packaging_precedence() {
    let found: Vec<(Root, Vec<String>)> = candidate_locations("lizard-backend")
        .into_iter()
        .map(|c| (c.root, c.components))
        .collect();
    assert_eq!(
        found,
        vec![
            parts(Root::ResourceDir, &["lizard-backend"]),
            parts(Root::ResourceDir, &["lizard-backend.exe"]),
            parts(Root::ResourceDir, &["binaries", "lizard-backend"]),
            parts(Root::ResourceDir, &["binaries", "lizard-backend.exe"]),
            parts(Root::ResourceParent, &["Resources", "lizard-backend"]),
        ]
    );
}

#[test]
fn resolution_prefers_highest_precedence() {
    assert_eq!(resolve_location(&[true, true, true, true, true]), Some(0));
    assert_eq!(resolve_location(&[false, true, false, true, true]), Some(1));
    assert_eq!(resolve_location(&[false, false, true, true, false]), Some(2));
    assert_eq!(resolve_location(&[false, false, false, false, true]), Some(4));
}

#[test]
fn resolution_is_deterministic() {
    let present = [false, true, true, false, true];
    let first = resolve_location(&present);
    for _ in 0..10 {
        assert_eq!(resolve_location(&present), first);
    }
    assert_eq!(first, Some(1));
}

#[test]
fn resolution_finds_nothing_when_nothing_is_present() {
    assert_eq!(resolve_location(&[false, false, false, false, false]), None);
    assert_eq!(resolve_location(&[]), None);
}

#[test]
fn exec_permission_is_detected() {
    assert!(lacks_exec_permission(0o644));
    assert!(lacks_exec_permission(0o100600 & !0o111));
    assert!(!lacks_exec_permission(0o755));
    assert!(!lacks_exec_permission(0o640 | 0o010));
}

#[test]
fn exec_permission_is_granted_to_all() {
    assert_eq!(with_exec_permission(0o644), 0o755);
    assert_eq!(with_exec_permission(0o600), 0o711);
    assert_eq!(with_exec_permission(0o100644), 0o100755);
    assert_eq!(with_exec_permission(0o755), 0o755);
}
