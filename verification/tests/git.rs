use jj_starship::git::{collect, Checkout, GitInfo, Upstream};

fn checkout() -> Checkout {
    Checkout {
        commit_id: String::from("a3b4c5d6e7f8091a2b3c4d5e6f708192a3b4c5d6"),
        unique_prefix: 5,
        branch: Some(String::from("main")),
        has_conflict: false,
        upstream: Some(Upstream { ahead: 0, behind: 0 }),
    }
}

#[test]
fn commit_hash_is_cut_to_the_length_asked_for() {
    let info: GitInfo = collect(&checkout(), 8);
    assert_eq!(info.commit_id, "a3b4c5d6");
    assert_eq!(collect(&checkout(), 40).commit_id, checkout().commit_id);
    assert_eq!(collect(&checkout(), 64).commit_id, checkout().commit_id);
    assert_eq!(collect(&checkout(), 0).commit_id, "");
}

#[test]
fn unique_prefix_of_a_hash_never_exceeds_what_is_shown() {
    assert_eq!(collect(&checkout(), 8).unique_prefix, 5);
    assert_eq!(collect(&checkout(), 4).unique_prefix, 4);
}

#[test]
fn branch_is_passed_on() {
    assert_eq!(collect(&checkout(), 8).branch.as_deref(), Some("main"));
    let detached = Checkout { branch: None, ..checkout() };
    assert_eq!(collect(&detached, 8).branch, None);
}

#[test]
fn unmerged_paths_are_a_conflict() {
    assert!(!collect(&checkout(), 8).conflict);
    let merging = Checkout { has_conflict: true, ..checkout() };
    assert!(collect(&merging, 8).conflict);
}

#[test]
fn branch_level_with_its_upstream_is_synced() {
    let info = collect(&checkout(), 8);
    assert!(info.has_upstream);
    assert!(info.is_synced);
    assert!(!info.diverged);
}

#[test]
fn branch_ahead_or_behind_is_not_synced() {
    let ahead = Checkout { upstream: Some(Upstream { ahead: 2, behind: 0 }), ..checkout() };
    let info = collect(&ahead, 8);
    assert!(info.has_upstream);
    assert!(!info.is_synced);
    assert!(!info.diverged);
    let behind = Checkout { upstream: Some(Upstream { ahead: 0, behind: 1 }), ..checkout() };
    let info = collect(&behind, 8);
    assert!(!info.is_synced);
    assert!(!info.diverged);
}

#[test]
fn branch_ahead_and_behind_has_diverged() {
    let both = Checkout { upstream: Some(Upstream { ahead: 2, behind: 1 }), ..checkout() };
    let info = collect(&both, 8);
    assert!(info.diverged);
    assert!(!info.is_synced);
}

#[test]
fn branch_without_upstream_counts_as_synced() {
    let local = Checkout { upstream: None, ..checkout() };
    let info = collect(&local, 8);
    assert!(!info.has_upstream);
    assert!(info.is_synced);
    assert!(!info.diverged);
}
