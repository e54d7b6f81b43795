use gitu::items::{Item, TargetData};
use gitu::status::{
    branch_status_items, create, create_log_section_items, create_status_section_items, unmerged,
    untracked, upstream_shortname, BranchStatus, StatusHead, UpstreamStatus,
};
use gitu::strfmt::u64_to_string;

fn diff_row(id: &str, display: &str) -> Item {
    Item {
        id: Some(id.to_string()),
        display: display.to_string(),
        depth: 1,
        section: false,
        unselectable: false,
        hidden: false,
        target_data: None,
    }
}

#[test]
fn decimal_rendering() {
    assert_eq!(u64_to_string(0), "0");
    assert_eq!(u64_to_string(7), "7");
    assert_eq!(u64_to_string(10), "10");
    assert_eq!(u64_to_string(123), "123");
    assert_eq!(u64_to_string(u64::MAX), "18446744073709551615");
}

#[test]
fn upstream_shortname_strips_the_remotes_prefix() {
    assert_eq!(
        upstream_shortname(&"refs/remotes/origin/main".to_string()),
        "origin/main"
    );
}

#[test]
fn upstream_shortname_keeps_other_names() {
    assert_eq!(upstream_shortname(&"refs/heads/main".to_string()), "refs/heads/main");
    assert_eq!(upstream_shortname(&"origin/main".to_string()), "origin/main");
    assert_eq!(upstream_shortname(&"x".to_string()), "x");
}

#[test]
fn branch_status_without_a_branch() {
    let items = branch_status_items(&BranchStatus::NoBranch);
    assert_eq!(items.len(), 1);
    assert_eq!(items[0].display, "No branch");
    assert_eq!(items[0].id, Some("branch_status".to_string()));
    assert!(items[0].section);
}

#[test]
fn branch_status_without_upstream() {
    let items = branch_status_items(&BranchStatus::Branch {
        name: "main".to_string(),
        upstream: UpstreamStatus::Unset,
    });
    assert_eq!(items.len(), 1);
    assert_eq!(items[0].display, "On branch main");
    assert!(items[0].section);
}

#[test]
fn branch_status_with_gone_upstream() {
    let items = branch_status_items(&BranchStatus::Branch {
        name: "topic".to_string(),
        upstream: UpstreamStatus::Gone {
            upstream_name: "refs/remotes/origin/topic".to_string(),
        },
    });
    assert_eq!(items.len(), 2);
    assert_eq!(items[0].display, "On branch topic");
    assert_eq!(
        items[1].display,
        "Your branch is based on 'origin/topic', but the upstream is gone."
    );
    assert_eq!(items[1].depth, 1);
    assert!(items[1].unselectable);
}

#[test]
fn branch_status_up_to_date() {
    let items = branch_status_items(&BranchStatus::Branch {
        name: "main".to_string(),
        upstream: UpstreamStatus::Tracking {
            upstream_name: "refs/remotes/origin/main".to_string(),
            ahead: 0,
            behind: 0,
        },
    });
    assert_eq!(items.len(), 2);
    assert_eq!(items[1].display, "Your branch is up to date with 'origin/main'.");
}

#[test]
fn branch_status_ahead() {
    let items = branch_status_items(&BranchStatus::Branch {
        name: "main".to_string(),
        upstream: UpstreamStatus::Tracking {
            upstream_name: "refs/remotes/origin/main".to_string(),
            ahead: 2,
            behind: 0,
        },
    });
    assert_eq!(items[1].display, "Your branch is ahead of 'origin/main' by 2 commit.");
}

#[test]
fn branch_status_behind() {
    let items = branch_status_items(&BranchStatus::Branch {
        name: "main".to_string(),
        upstream: UpstreamStatus::Tracking {
            upstream_name: "refs/remotes/origin/main".to_string(),
            ahead: 0,
            behind: 3,
        },
    });
    assert_eq!(items[1].display, "Your branch is behind 'origin/main' by 3 commit.");
}

#[test]
fn branch_status_diverged() {
    let items = branch_status_items(&BranchStatus::Branch {
        name: "main".to_string(),
        upstream: UpstreamStatus::Tracking {
            upstream_name: "refs/remotes/origin/main".to_string(),
            ahead: 2,
            behind: 3,
        },
    });
    assert_eq!(
        items[1].display,
        "Your branch and 'origin/main' have diverged,\nand have 2 and 3 different commits each, respectively."
    );
}

#[test]
fn untracked_rows_carry_path_identity_and_payload() {
    let paths = vec!["a.txt".to_string(), "dir/b.txt".to_string()];
    let items = untracked(&paths);
    assert_eq!(items.len(), 2);
    for (it, p) in items.iter().zip(paths.iter()) {
        assert_eq!(it.id, Some(p.clone()));
        assert_eq!(&it.display, p);
        assert_eq!(it.depth, 1);
        assert!(!it.unselectable && !it.section);
        assert_eq!(it.target_data, Some(TargetData::File(p.clone())));
    }
}

#[test]
fn unmerged_rows_match_untracked_shape() {
    let paths = vec!["conflict.rs".to_string()];
    let items = unmerged(&paths);
    assert_eq!(items.len(), 1);
    assert_eq!(items[0].target_data, Some(TargetData::File("conflict.rs".to_string())));
}

#[test]
fn status_section_is_plain_when_empty() {
    let rows = create_status_section_items("Unstaged changes", 0, vec![]);
    assert!(rows.is_empty());
}

#[test]
fn status_section_headers_carry_the_delta_count() {
    let diff = vec![diff_row("d1", "modified a.txt"), diff_row("d2", "modified b.txt")];
    let rows = create_status_section_items("Unstaged changes", 2, diff);
    assert_eq!(rows.len(), 4);
    assert_eq!(rows[0].display, "");
    assert!(rows[0].unselectable);
    assert_eq!(rows[1].display, "Unstaged changes (2)");
    assert_eq!(rows[1].id, Some("Unstaged changes".to_string()));
    assert!(rows[1].section);
    assert_eq!(rows[2].display, "modified a.txt");
    assert_eq!(rows[3].display, "modified b.txt");
}

#[test]
fn log_section_wraps_its_rows() {
    let rows = create_log_section_items("Recent commits", vec![diff_row("c1", "abc123 fix")]);
    assert_eq!(rows.len(), 3);
    assert!(rows[0].unselectable);
    assert_eq!(rows[1].display, "Recent commits");
    assert!(rows[1].section);
    assert_eq!(rows[2].display, "abc123 fix");
}

#[test]
fn create_composes_the_status_view_in_order() {
    let head = StatusHead::Branch(BranchStatus::Branch {
        name: "main".to_string(),
        upstream: UpstreamStatus::Unset,
    });
    let untracked_paths = vec!["new.txt".to_string()];
    let unmerged_paths: Vec<String> = vec![];
    let unstaged = vec![diff_row("u1", "modified src/lib.rs")];
    let log = vec![diff_row("c1", "abc123 first commit")];
    let rows = create(&head, &untracked_paths, &unmerged_paths, 1, unstaged, 0, vec![], log);

    let displays: Vec<&str> = rows.iter().map(|it| it.display.as_str()).collect();
    assert_eq!(
        displays,
        vec![
            "On branch main",
            "",
            "Untracked files",
            "new.txt",
            "",
            "Unstaged changes (1)",
            "modified src/lib.rs",
            "",
            "Recent commits",
            "abc123 first commit",
        ]
    );
    assert_eq!(rows[2].id, Some("untracked".to_string()));
    assert!(rows[2].section);
}

#[test]
fn create_shows_rebase_state_first() {
    let head = StatusHead::Rebasing {
        head_name: "topic".to_string(),
        onto: "main".to_string(),
    };
    let rows = create(&head, &vec![], &vec![], 0, vec![], 0, vec![], vec![]);
    assert_eq!(rows[0].display, "Rebasing topic onto main");
    assert_eq!(rows[0].id, Some("rebase_status".to_string()));
    assert!(!rows[0].section);
}

#[test]
fn create_shows_merge_state_first() {
    let head = StatusHead::Merging { head: "feature".to_string() };
    let rows = create(&head, &vec![], &vec![], 0, vec![], 0, vec![], vec![]);
    assert_eq!(rows[0].display, "Merging feature");
    assert_eq!(rows[0].id, Some("merge_status".to_string()));
}
