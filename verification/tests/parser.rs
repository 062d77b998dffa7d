use branch_sweep::branches::{
    fallback_default, filter_default, parse_branch_line, parse_branch_list, strip_origin_prefix,
    Branch,
};

fn branch(name: &str, age: &str) -> Branch {
    Branch { name: name.to_string(), relative_age: age.to_string() }
}

#[test]
fn line_with_tab_yields_one_record() {
    let b = parse_branch_line("2 days ago\tfeature-x").unwrap();
    assert_eq!(b.name, "feature-x");
    assert_eq!(b.relative_age, "2 days ago");
}

#[test]
fn line_without_tab_yields_no_record() {
    assert!(parse_branch_line("no tab here").is_none());
    assert!(parse_branch_line("").is_none());
}

#[test]
fn line_splits_at_first_tab_only() {
    let b = parse_branch_line("3 weeks ago\ta\tb").unwrap();
    assert_eq!(b.relative_age, "3 weeks ago");
    assert_eq!(b.name, "a\tb");
}

#[test]
fn list_keeps_line_order_and_drops_malformed_lines() {
    let text = "3 weeks ago\talpha\n2 months ago\tbeta\nmalformed line\n1 year ago\tgamma\n";
    let records = parse_branch_list(text);
    assert_eq!(records.len(), 3);
    assert_eq!(records[0].name, "alpha");
    assert_eq!(records[0].relative_age, "3 weeks ago");
    assert_eq!(records[1].name, "beta");
    assert_eq!(records[2].name, "gamma");
    assert_eq!(records[2].relative_age, "1 year ago");
}

#[test]
fn list_of_empty_text_is_empty() {
    assert!(parse_branch_list("").is_empty());
}

#[test]
fn list_accepts_carriage_returns() {
    let records = parse_branch_list("2 days ago\tfeature-x\r\n");
    assert_eq!(records.len(), 1);
    assert_eq!(records[0].name, "feature-x");
}

#[test]
fn filter_removes_default_branch_by_exact_name() {
    let branches = vec![branch("main", "1 hour ago"), branch("dev", "2 days ago")];
    let kept = filter_default(&branches, &Some("main".to_string()));
    assert_eq!(kept.len(), 1);
    assert_eq!(kept[0].name, "dev");
    assert_eq!(kept[0].relative_age, "2 days ago");
}

#[test]
fn filter_keeps_everything_without_a_default() {
    let branches = vec![branch("main", "1 hour ago"), branch("dev", "2 days ago")];
    let kept = filter_default(&branches, &None);
    assert_eq!(kept.len(), 2);
    let kept = filter_default(&branches, &Some("release".to_string()));
    assert_eq!(kept.len(), 2);
}

#[test]
fn origin_prefix_is_stripped_from_symbolic_ref() {
    assert_eq!(
        strip_origin_prefix("refs/remotes/origin/main\n"),
        Some("main".to_string())
    );
    assert_eq!(
        strip_origin_prefix("  refs/remotes/origin/release/v2  "),
        Some("release/v2".to_string())
    );
    assert_eq!(strip_origin_prefix("refs/heads/main"), None);
    assert_eq!(strip_origin_prefix(""), None);
}

#[test]
fn fallback_prefers_main_then_master() {
    assert_eq!(fallback_default(true, false), Some("main".to_string()));
    assert_eq!(fallback_default(true, true), Some("main".to_string()));
    assert_eq!(fallback_default(false, true), Some("master".to_string()));
    assert_eq!(fallback_default(false, false), None);
}
