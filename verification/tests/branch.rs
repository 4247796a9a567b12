use rustygit::branch::Branch;
use rustygit::branch::BranchTip;
use rustygit::branch::BranchType;

fn tip(byte: u8) -> BranchTip {
    BranchTip { id: vec![byte; 20] }
}

#[test]
fn test_new_branch_defaults() {
    let b = Branch::new();
    assert_eq!(b.name, Some("main".to_string()));
    assert_eq!(b.local, None);
    assert_eq!(b.remote, None);
    assert_eq!(b.ahead_behind, (0, 0));
    assert!(!b.degraded);
}

#[test]
fn test_unborn_head_yields_no_refs_and_zero_counts() {
    let mut b = Branch::new();
    b.initialize(None, Some(tip(1)), Some(tip(2)), Some((4, 5)));
    assert_eq!(b.name, None);
    assert_eq!(b.local, None);
    assert_eq!(b.remote, None);
    assert_eq!(b.ahead_behind, (0, 0));
    assert!(!b.degraded);
}

#[test]
fn test_nameless_head_yields_no_refs_and_zero_counts() {
    let mut b = Branch::new();
    b.initialize(Some(None), None, None, None);
    assert_eq!(b.name, None);
    assert_eq!(b.ahead_behind, (0, 0));
    assert!(!b.degraded);
}

#[test]
fn test_resolved_tips_take_graph_counts() {
    let mut b = Branch::new();
    b.initialize(
        Some(Some("feature".to_string())),
        Some(tip(1)),
        Some(tip(2)),
        Some((2, 3)),
    );
    assert_eq!(b.name, Some("feature".to_string()));
    assert_eq!(b.local, Some(tip(1)));
    assert_eq!(b.remote, Some(tip(2)));
    assert_eq!(b.ahead_behind, (2, 3));
    assert!(!b.degraded);
}

#[test]
fn test_missing_upstream_defaults_to_zero() {
    let mut b = Branch::new();
    b.initialize(Some(Some("feature".to_string())), Some(tip(1)), None, None);
    assert_eq!(b.name, Some("feature".to_string()));
    assert_eq!(b.ahead_behind, (0, 0));
    assert!(!b.degraded);
}

#[test]
fn test_failed_graph_computation_degrades_to_zero() {
    let mut b = Branch::new();
    b.initialize(
        Some(Some("feature".to_string())),
        Some(tip(1)),
        Some(tip(2)),
        None,
    );
    assert_eq!(b.ahead_behind, (0, 0));
    assert!(b.degraded);
}

#[test]
fn test_get_ahead_behind_cases() {
    assert_eq!(Branch::get_ahead_behind(&None, &Some(tip(2)), Some((1, 1))), (0, 0));
    assert_eq!(Branch::get_ahead_behind(&Some(tip(1)), &None, Some((1, 1))), (0, 0));
    assert_eq!(
        Branch::get_ahead_behind(&Some(tip(1)), &Some(tip(2)), Some((7, 9))),
        (7, 9)
    );
    assert_eq!(Branch::get_ahead_behind(&Some(tip(1)), &Some(tip(2)), None), (0, 0));
}

#[test]
fn test_current_branch_name_flattens_head() {
    assert_eq!(Branch::get_current_branch_name(None), None);
    assert_eq!(Branch::get_current_branch_name(Some(None)), None);
    assert_eq!(
        Branch::get_current_branch_name(Some(Some("main".to_string()))),
        Some("main".to_string())
    );
}

#[test]
fn test_branch_lookup_names() {
    let name = "feature".to_string();
    assert_eq!(
        Branch::get_branch_lookup_name(&name, BranchType::Local),
        "feature".to_string()
    );
    assert_eq!(
        Branch::get_branch_lookup_name(&name, BranchType::Remote),
        "origin/feature".to_string()
    );
}
