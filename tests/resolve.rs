use branch_tui::branch::{
    resolve_branch, resolve_listing, tracking_keys, upstream_flags, BranchItem, BranchQuery, BranchRecord,
    CommitInfo, Upstream,
};

fn record(name: &str, head: bool, configured: bool, upstream: Upstream) -> BranchRecord {
    BranchRecord {
        name: Some(name.to_string()),
        commit: Some(CommitInfo {
            id: format!("{:0>40}", name.len()),
            summary: Some(format!("tip of {name}")),
        }),
        is_head: head,
        remote_configured: configured,
        merge_configured: configured,
        upstream,
    }
}

fn item(name: &str, oid: &str) -> BranchItem {
    BranchItem {
        name: name.to_string(),
        oid: oid.to_string(),
        summary: String::new(),
        is_head: false,
        has_upstream: false,
        is_gone: false,
    }
}

#[test]
fn local_scope_with_main_and_feature() {
    let records = vec![
        record("main", true, true, Upstream::Resolved),
        record("feature-x", false, false, Upstream::Failed),
    ];
    let items = resolve_listing(BranchQuery::Local, Some(records), None);
    assert_eq!(items.len(), 2);
    assert_eq!(items[0].name, "main");
    assert!(items[0].is_head);
    assert!(items[0].has_upstream);
    assert!(!items[0].is_gone);
    assert_eq!(items[1].name, "feature-x");
    assert!(!items[1].is_head);
    assert!(!items[1].has_upstream);
    assert!(!items[1].is_gone);
}

#[test]
fn deleted_remote_branch_is_gone() {
    let r = resolve_branch(record("old-feature", false, true, Upstream::NotFound)).unwrap();
    assert_eq!(r.name, "old-feature");
    assert!(r.is_gone);
    assert!(!r.has_upstream);
}

#[test]
fn no_tracking_configuration_means_no_flags() {
    for upstream in [Upstream::Resolved, Upstream::NotFound, Upstream::Failed] {
        assert_eq!(upstream_flags(false, upstream), (false, false));
    }
}

#[test]
fn tracking_configuration_outcomes() {
    assert_eq!(upstream_flags(true, Upstream::Resolved), (true, false));
    assert_eq!(upstream_flags(true, Upstream::NotFound), (false, true));
    assert_eq!(upstream_flags(true, Upstream::Failed), (false, false));
}

#[test]
fn unresolved_commit_gives_empty_fields() {
    let rec = BranchRecord {
        name: Some("orphan".to_string()),
        commit: None,
        is_head: false,
        remote_configured: false,
        merge_configured: false,
        upstream: Upstream::Failed,
    };
    let r = resolve_branch(rec).unwrap();
    assert_eq!(r.name, "orphan");
    assert_eq!(r.oid, "");
    assert_eq!(r.summary, "");
}

#[test]
fn unreadable_summary_is_empty() {
    let rec = BranchRecord {
        name: Some("binary".to_string()),
        commit: Some(CommitInfo { id: "0123456789abcdef".to_string(), summary: None }),
        is_head: false,
        remote_configured: false,
        merge_configured: false,
        upstream: Upstream::Failed,
    };
    let r = resolve_branch(rec).unwrap();
    assert_eq!(r.oid, "0123456789abcdef");
    assert_eq!(r.summary, "");
}

#[test]
fn unreadable_name_is_left_out() {
    let rec = BranchRecord {
        name: None,
        commit: None,
        is_head: false,
        remote_configured: false,
        merge_configured: false,
        upstream: Upstream::Failed,
    };
    assert!(resolve_branch(rec).is_none());
    let items = resolve_listing(
        BranchQuery::Local,
        Some(vec![
            record("a", false, false, Upstream::Failed),
            BranchRecord {
                name: None,
                commit: None,
                is_head: false,
                remote_configured: false,
        merge_configured: false,
                upstream: Upstream::Failed,
            },
            record("b", false, false, Upstream::Failed),
        ]),
        None,
    );
    let names: Vec<&str> = items.iter().map(|b| b.name.as_str()).collect();
    assert_eq!(names, vec!["a", "b"]);
}

#[test]
fn scopes_choose_listings_in_order() {
    let local = || Some(vec![record("main", true, false, Upstream::Failed)]);
    let remote = || Some(vec![record("origin/main", false, false, Upstream::Failed)]);
    let names = |v: Vec<BranchItem>| v.into_iter().map(|b| b.name).collect::<Vec<_>>();
    assert_eq!(names(resolve_listing(BranchQuery::Local, local(), remote())), vec!["main"]);
    assert_eq!(
        names(resolve_listing(BranchQuery::Remote, local(), remote())),
        vec!["origin/main"]
    );
    assert_eq!(
        names(resolve_listing(BranchQuery::LocalAndRemote, local(), remote())),
        vec!["main", "origin/main"]
    );
}

#[test]
fn failed_enumeration_gives_nothing() {
    assert!(resolve_listing(BranchQuery::LocalAndRemote, None, None).is_empty());
    let items = resolve_listing(
        BranchQuery::LocalAndRemote,
        None,
        Some(vec![record("origin/dev", false, false, Upstream::Failed)]),
    );
    assert_eq!(items.len(), 1);
    assert_eq!(items[0].name, "origin/dev");
}

#[test]
fn scope_cycles_through_three() {
    assert_eq!(BranchQuery::Local.next(), BranchQuery::LocalAndRemote);
    assert_eq!(BranchQuery::LocalAndRemote.next(), BranchQuery::Remote);
    assert_eq!(BranchQuery::Remote.next(), BranchQuery::Local);
    assert!(BranchQuery::Local.includes_local());
    assert!(!BranchQuery::Local.includes_remote());
    assert!(!BranchQuery::Remote.includes_local());
    assert!(BranchQuery::LocalAndRemote.includes_remote());
}

#[test]
fn short_oid_takes_seven_characters() {
    let b = item("main", "0123456789abcdef0123456789abcdef01234567");
    assert_eq!(b.short_oid(), "0123456");
    assert_eq!(item("x", "abc").short_oid(), "abc");
    assert_eq!(item("x", "").short_oid(), "");
}

#[test]
fn clone_keeps_every_field() {
    let mut b = item("dev", "abcdef0");
    b.is_gone = true;
    let c = b.clone();
    assert_eq!(c.name, "dev");
    assert_eq!(c.oid, "abcdef0");
    assert!(c.is_gone);
}

#[test]
fn one_config_key_is_not_tracking() {
    let mut rec = record("half", false, true, Upstream::NotFound);
    rec.merge_configured = false;
    let r = resolve_branch(rec).unwrap();
    assert!(!r.is_gone);
    assert!(!r.has_upstream);
    let mut rec = record("half", false, true, Upstream::Resolved);
    rec.remote_configured = false;
    assert!(!resolve_branch(rec).unwrap().has_upstream);
}

#[test]
fn tracking_key_names() {
    let (remote, merge) = tracking_keys("feature/x");
    assert_eq!(remote, "branch.feature/x.remote");
    assert_eq!(merge, "branch.feature/x.merge");
}
