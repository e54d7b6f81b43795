//! Builders for the status view's item tree: they turn plain repository
//! facts (branch and upstream state, untracked and conflicted paths, change
//! counts) into display rows laid out by the construction protocol: a blank
//! spacer before each new top-level section except the first, section
//! headers at depth 0, file rows at depth 1 carrying their path as identity
//! and target payload.

use vstd::prelude::*;

use crate::items::{blank_line, blank_view, views_of, Item, ItemView, TargetData, TargetDataView};
use crate::strfmt::{decimal_spec, u64_to_string};

verus! {

/// How the checked-out branch relates to its configured upstream.
pub enum UpstreamStatus {
    /// No upstream is configured.
    Unset,
    /// The configured upstream reference no longer resolves.
    Gone { upstream_name: String },
    /// The upstream resolves; the branch is ahead/behind by these counts.
    Tracking { upstream_name: String, ahead: usize, behind: usize },
}

/// The branch facts the head section is built from.
pub enum BranchStatus {
    /// The repository has no usable head.
    NoBranch,
    /// A branch is checked out.
    Branch { name: String, upstream: UpstreamStatus },
}

/// What state the repository head is in.
pub enum StatusHead {
    /// A rebase is in progress.
    Rebasing { head_name: String, onto: String },
    /// A merge is in progress.
    Merging { head: String },
    /// Neither; the branch facts decide.
    Branch(BranchStatus),
}

/// A section-header row: depth 0, selectable, no payload.
pub open spec fn section_header_view(id: Seq<char>, display: Seq<char>) -> ItemView {
    ItemView {
        id: Option::Some(id),
        display,
        depth: 0,
        section: false,
        unselectable: false,
        hidden: false,
        target_data: Option::None,
    }
}

/// A section-header row that heads a collapsible section.
pub open spec fn collapsible_header_view(id: Seq<char>, display: Seq<char>) -> ItemView {
    ItemView {
        id: Option::Some(id),
        display,
        depth: 0,
        section: true,
        unselectable: false,
        hidden: false,
        target_data: Option::None,
    }
}

/// An indented, unselectable message row under the branch header.
pub open spec fn message_view(id: Seq<char>, display: Seq<char>) -> ItemView {
    ItemView {
        id: Option::Some(id),
        display,
        depth: 1,
        section: false,
        unselectable: true,
        hidden: false,
        target_data: Option::None,
    }
}

/// A file row: its path is its identity, display and target payload.
pub open spec fn file_row_view(path: Seq<char>) -> ItemView {
    ItemView {
        id: Option::Some(path),
        display: path,
        depth: 1,
        section: false,
        unselectable: false,
        hidden: false,
        target_data: Option::Some(TargetDataView::File(path)),
    }
}

/// The upstream's short name: the full reference with a leading
/// "refs/remotes/" stripped, or unchanged when it carries no such prefix.
pub open spec fn upstream_short(s: Seq<char>) -> Seq<char> {
    if s.len() >= 13 && s.subrange(0, 13) == "refs/remotes/"@ {
        s.skip(13)
    } else {
        s
    }
}

/// The message head line while rebasing.
pub open spec fn rebasing_msg(head_name: Seq<char>, onto: Seq<char>) -> Seq<char> {
    "Rebasing "@ + head_name + " onto "@ + onto
}

/// The message head line while merging.
pub open spec fn merging_msg(head: Seq<char>) -> Seq<char> {
    "Merging "@ + head
}

/// The branch header line.
pub open spec fn on_branch_msg(name: Seq<char>) -> Seq<char> {
    "On branch "@ + name
}

/// The message shown when the configured upstream is gone.
pub open spec fn upstream_gone_msg(short: Seq<char>) -> Seq<char> {
    "Your branch is based on '"@ + short + "', but the upstream is gone."@
}

/// The up-to-date / ahead / behind / diverged message.
pub open spec fn ahead_behind_msg(short: Seq<char>, ahead: nat, behind: nat) -> Seq<char> {
    if ahead == 0 && behind == 0 {
        "Your branch is up to date with '"@ + short + "'."@
    } else if ahead > 0 && behind == 0 {
        "Your branch is ahead of '"@ + short + "' by "@ + decimal_spec(ahead) + " commit."@
    } else if ahead == 0 && behind > 0 {
        "Your branch is behind '"@ + short + "' by "@ + decimal_spec(behind) + " commit."@
    } else {
        "Your branch and '"@ + short + "' have diverged,\nand have "@ + decimal_spec(ahead)
            + " and "@ + decimal_spec(behind) + " different commits each, respectively."@
    }
}

/// The rows of the branch/head section.
pub open spec fn branch_status_views(b: BranchStatus) -> Seq<ItemView> {
    match b {
        BranchStatus::NoBranch => seq![
            collapsible_header_view("branch_status"@, "No branch"@),
        ],
        BranchStatus::Branch { name, upstream } => {
            let head_item = collapsible_header_view("branch_status"@, on_branch_msg(name@));
            match upstream {
                UpstreamStatus::Unset => seq![head_item],
                UpstreamStatus::Gone { upstream_name } => seq![
                    head_item,
                    message_view(
                        "branch_status"@,
                        upstream_gone_msg(upstream_short(upstream_name@)),
                    ),
                ],
                UpstreamStatus::Tracking { upstream_name, ahead, behind } => seq![
                    head_item,
                    message_view(
                        "branch_status"@,
                        ahead_behind_msg(
                            upstream_short(upstream_name@),
                            ahead as nat,
                            behind as nat,
                        ),
                    ),
                ],
            }
        },
    }
}

/// The rows that open the status view.
pub open spec fn head_views(head: StatusHead) -> Seq<ItemView> {
    match head {
        StatusHead::Rebasing { head_name, onto } => seq![
            section_header_view("rebase_status"@, rebasing_msg(head_name@, onto@)),
        ],
        StatusHead::Merging { head } => seq![
            section_header_view("merge_status"@, merging_msg(head@)),
        ],
        StatusHead::Branch(b) => branch_status_views(b),
    }
}

/// A file-list section: omitted entirely when empty, else a blank spacer, a
/// collapsible header, and one row per path.
pub open spec fn file_section_views(id: Seq<char>, header: Seq<char>, paths: Seq<String>) -> Seq<
    ItemView,
> {
    if paths.len() == 0 {
        Seq::empty()
    } else {
        seq![blank_view(), collapsible_header_view(id, header)] + paths.map_values(
            |p: String| file_row_view(p@),
        )
    }
}

/// A diff section: just the diff rows when there is no delta, else a blank
/// spacer and a header carrying the delta count, then the diff rows.
pub open spec fn status_section_views(
    header: Seq<char>,
    deltas: nat,
    diff_views: Seq<ItemView>,
) -> Seq<ItemView> {
    if deltas == 0 {
        diff_views
    } else {
        seq![
            blank_view(),
            collapsible_header_view(header, header + " ("@ + decimal_spec(deltas) + ")"@),
        ] + diff_views
    }
}

/// A log section: a blank spacer, a collapsible header, the log rows.
pub open spec fn log_section_views(header: Seq<char>, log_views: Seq<ItemView>) -> Seq<ItemView> {
    seq![blank_view(), collapsible_header_view(header, header)] + log_views
}

/// The whole status view, in display order: the head section, the untracked
/// and unmerged file sections, the unstaged and staged diff sections, the
/// recent-commits section.
pub open spec fn create_views(
    head: StatusHead,
    untracked_paths: Seq<String>,
    unmerged_paths: Seq<String>,
    unstaged_count: nat,
    unstaged_views: Seq<ItemView>,
    staged_count: nat,
    staged_views: Seq<ItemView>,
    log_views: Seq<ItemView>,
) -> Seq<ItemView> {
    head_views(head) + file_section_views("untracked"@, "Untracked files"@, untracked_paths)
        + file_section_views("unmerged"@, "Unmerged"@, unmerged_paths) + status_section_views(
        "Unstaged changes"@,
        unstaged_count,
        unstaged_views,
    ) + status_section_views("Staged changes"@, staged_count, staged_views) + log_section_views(
        "Recent commits"@,
        log_views,
    )
}

/// Row views map over concatenation.
proof fn lemma_views_of_add(a: Seq<Item>, b: Seq<Item>)
    ensures
        views_of(a + b) == views_of(a) + views_of(b),
{
    assert(views_of(a + b) =~= views_of(a) + views_of(b));
}

/// The upstream's short name, computed.
pub fn upstream_shortname(s: &String) -> (r: String)
    ensures
        r@ == upstream_short(s@),
{
    proof {
        reveal_strlit("refs/remotes/");
    }
    let n = s.as_str().unicode_len();
    if n < 13 {
        return s.clone();
    }
    let pfx = "refs/remotes/";
    let mut k: usize = 0;
    while k < 13
        invariant
            k <= 13,
            13 <= n == s@.len(),
            pfx@ == "refs/remotes/"@,
            forall|j: int| 0 <= j < k ==> s@[j] == pfx@[j],
        decreases 13 - k,
    {
        proof {
            reveal_strlit("refs/remotes/");
        }
        if s.as_str().get_char(k) != pfx.get_char(k) {
            proof {
                assert(s@.subrange(0, 13) != "refs/remotes/"@);
            }
            return s.clone();
        }
        k += 1;
    }
    proof {
        assert(s@.subrange(0, 13) =~= "refs/remotes/"@);
    }
    let r = s.as_str().substring_char(13, n);
    proof {
        assert(r@ =~= s@.skip(13));
    }
    r.to_owned()
}

/// The rows of the branch/head section, from the branch facts.
pub fn branch_status_items(b: &BranchStatus) -> (r: Vec<Item>)
    ensures
        views_of(r@) == branch_status_views(*b),
{
    let mut r: Vec<Item> = Vec::new();
    match b {
        BranchStatus::NoBranch => {
            r.push(
                Item {
                    id: Option::Some("branch_status".to_owned()),
                    display: "No branch".to_owned(),
                    depth: 0,
                    section: true,
                    unselectable: false,
                    hidden: false,
                    target_data: Option::None,
                },
            );
        },
        BranchStatus::Branch { name, upstream } => {
            r.push(
                Item {
                    id: Option::Some("branch_status".to_owned()),
                    display: "On branch ".to_owned().concat(name.as_str()),
                    depth: 0,
                    section: true,
                    unselectable: false,
                    hidden: false,
                    target_data: Option::None,
                },
            );
            match upstream {
                UpstreamStatus::Unset => {},
                UpstreamStatus::Gone { upstream_name } => {
                    let short = upstream_shortname(upstream_name);
                    let msg = "Your branch is based on '".to_owned().concat(
                        short.as_str(),
                    ).concat("', but the upstream is gone.");
                    r.push(
                        Item {
                            id: Option::Some("branch_status".to_owned()),
                            display: msg,
                            depth: 1,
                            section: false,
                            unselectable: true,
                            hidden: false,
                            target_data: Option::None,
                        },
                    );
                },
                UpstreamStatus::Tracking { upstream_name, ahead, behind } => {
                    let short = upstream_shortname(upstream_name);
                    let msg = ahead_behind_message(&short, *ahead, *behind);
                    r.push(
                        Item {
                            id: Option::Some("branch_status".to_owned()),
                            display: msg,
                            depth: 1,
                            section: false,
                            unselectable: true,
                            hidden: false,
                            target_data: Option::None,
                        },
                    );
                },
            }
        },
    }
    proof {
        assert(views_of(r@) =~= branch_status_views(*b));
    }
    r
}

/// The up-to-date / ahead / behind / diverged message, built.
fn ahead_behind_message(short: &String, ahead: usize, behind: usize) -> (r: String)
    ensures
        r@ == ahead_behind_msg(short@, ahead as nat, behind as nat),
{
    if ahead == 0 && behind == 0 {
        let r = "Your branch is up to date with '".to_owned().concat(short.as_str()).concat(
            "'.",
        );
        proof {
            assert(r@ =~= ahead_behind_msg(short@, ahead as nat, behind as nat));
        }
        r
    } else if ahead > 0 && behind == 0 {
        let n = u64_to_string(ahead as u64);
        let r = "Your branch is ahead of '".to_owned().concat(short.as_str()).concat(
            "' by ",
        ).concat(n.as_str()).concat(" commit.");
        proof {
            assert(r@ =~= ahead_behind_msg(short@, ahead as nat, behind as nat));
        }
        r
    } else if ahead == 0 && behind > 0 {
        let n = u64_to_string(behind as u64);
        let r = "Your branch is behind '".to_owned().concat(short.as_str()).concat(
            "' by ",
        ).concat(n.as_str()).concat(" commit.");
        proof {
            assert(r@ =~= ahead_behind_msg(short@, ahead as nat, behind as nat));
        }
        r
    } else {
        let a = u64_to_string(ahead as u64);
        let b = u64_to_string(behind as u64);
        let r = "Your branch and '".to_owned().concat(short.as_str()).concat(
            "' have diverged,\nand have ",
        ).concat(a.as_str()).concat(" and ").concat(b.as_str()).concat(
            " different commits each, respectively.",
        );
        proof {
            assert(r@ =~= ahead_behind_msg(short@, ahead as nat, behind as nat));
        }
        r
    }
}

/// One file row per path, each selectable, at depth 1, carrying its path.
fn file_rows(paths: &Vec<String>) -> (r: Vec<Item>)
    ensures
        views_of(r@) == paths@.map_values(|p: String| file_row_view(p@)),
{
    let mut r: Vec<Item> = Vec::new();
    let mut i: usize = 0;
    while i < paths.len()
        invariant
            i <= paths@.len(),
            r@.len() == i,
            forall|j: int| 0 <= j < i ==> r@[j]@ == file_row_view(paths@[j]@),
        decreases paths@.len() - i,
    {
        let p = &paths[i];
        r.push(
            Item {
                id: Option::Some(p.clone()),
                display: p.clone(),
                depth: 1,
                section: false,
                unselectable: false,
                hidden: false,
                target_data: Option::Some(TargetData::File(p.clone())),
            },
        );
        i += 1;
    }
    proof {
        assert(views_of(r@) =~= paths@.map_values(|p: String| file_row_view(p@)));
    }
    r
}

/// The rows of untracked files: one selectable row per path.
pub fn untracked(paths: &Vec<String>) -> (r: Vec<Item>)
    ensures
        views_of(r@) == paths@.map_values(|p: String| file_row_view(p@)),
{
    file_rows(paths)
}

/// The rows of conflicted files: one selectable row per path.
pub fn unmerged(paths: &Vec<String>) -> (r: Vec<Item>)
    ensures
        views_of(r@) == paths@.map_values(|p: String| file_row_view(p@)),
{
    file_rows(paths)
}

/// A file-list section, spacer and header included, omitted when empty.
fn file_section(id: &str, header: &str, paths: &Vec<String>) -> (r: Vec<Item>)
    ensures
        views_of(r@) == file_section_views(id@, header@, paths@),
{
    if paths.len() == 0 {
        let r: Vec<Item> = Vec::new();
        proof {
            assert(views_of(r@) =~= file_section_views(id@, header@, paths@));
        }
        return r;
    }
    let mut r: Vec<Item> = Vec::new();
    r.push(blank_line());
    r.push(
        Item {
            id: Option::Some(id.to_owned()),
            display: header.to_owned(),
            depth: 0,
            section: true,
            unselectable: false,
            hidden: false,
            target_data: Option::None,
        },
    );
    let mut rows = file_rows(paths);
    r.append(&mut rows);
    proof {
        assert(views_of(r@) =~= file_section_views(id@, header@, paths@));
    }
    r
}

/// A diff section around externally generated diff rows: just those rows
/// when there is no delta, else a blank spacer and a header carrying the
/// delta count, then the rows.
pub fn create_status_section_items(header: &str, deltas: usize, diff_items: Vec<Item>) -> (r: Vec<
    Item,
>)
    ensures
        views_of(r@) == status_section_views(header@, deltas as nat, views_of(diff_items@)),
{
    let ghost dv = views_of(diff_items@);
    let mut diff_items = diff_items;
    if deltas == 0 {
        return diff_items;
    }
    let mut r: Vec<Item> = Vec::new();
    r.push(blank_line());
    let n = u64_to_string(deltas as u64);
    let display = header.to_owned().concat(" (").concat(n.as_str()).concat(")");
    r.push(
        Item {
            id: Option::Some(header.to_owned()),
            display,
            depth: 0,
            section: true,
            unselectable: false,
            hidden: false,
            target_data: Option::None,
        },
    );
    r.append(&mut diff_items);
    proof {
        assert(views_of(r@) =~= status_section_views(header@, deltas as nat, dv));
    }
    r
}

/// The log section around externally generated log rows: a blank spacer, a
/// collapsible header, then the rows.
pub fn create_log_section_items(header: &str, log_items: Vec<Item>) -> (r: Vec<Item>)
    ensures
        views_of(r@) == log_section_views(header@, views_of(log_items@)),
{
    let ghost lv = views_of(log_items@);
    let mut log_items = log_items;
    let mut r: Vec<Item> = Vec::new();
    r.push(blank_line());
    r.push(
        Item {
            id: Option::Some(header.to_owned()),
            display: header.to_owned(),
            depth: 0,
            section: true,
            unselectable: false,
            hidden: false,
            target_data: Option::None,
        },
    );
    r.append(&mut log_items);
    proof {
        assert(views_of(r@) =~= log_section_views(header@, lv));
    }
    r
}

/// The rows that open the status view, from the head facts.
fn head_items(head: &StatusHead) -> (r: Vec<Item>)
    ensures
        views_of(r@) == head_views(*head),
{
    match head {
        StatusHead::Rebasing { head_name, onto } => {
            let msg = "Rebasing ".to_owned().concat(head_name.as_str()).concat(
                " onto ",
            ).concat(onto.as_str());
            let mut r: Vec<Item> = Vec::new();
            r.push(
                Item {
                    id: Option::Some("rebase_status".to_owned()),
                    display: msg,
                    depth: 0,
                    section: false,
                    unselectable: false,
                    hidden: false,
                    target_data: Option::None,
                },
            );
            proof {
                assert(views_of(r@) =~= head_views(*head));
            }
            r
        },
        StatusHead::Merging { head: h } => {
            let msg = "Merging ".to_owned().concat(h.as_str());
            let mut r: Vec<Item> = Vec::new();
            r.push(
                Item {
                    id: Option::Some("merge_status".to_owned()),
                    display: msg,
                    depth: 0,
                    section: false,
                    unselectable: false,
                    hidden: false,
                    target_data: Option::None,
                },
            );
            proof {
                assert(views_of(r@) =~= head_views(*head));
            }
            r
        },
        StatusHead::Branch(b) => branch_status_items(b),
    }
}

/// The whole status view: the head section, the untracked and unmerged file
/// sections, the unstaged and staged diff sections (around externally
/// generated diff rows), and the recent-commits section (around externally
/// generated log rows).
pub fn create(
    head: &StatusHead,
    untracked_paths: &Vec<String>,
    unmerged_paths: &Vec<String>,
    unstaged_count: usize,
    unstaged_items: Vec<Item>,
    staged_count: usize,
    staged_items: Vec<Item>,
    log_items: Vec<Item>,
) -> (r: Vec<Item>)
    ensures
        views_of(r@) == create_views(
            *head,
            untracked_paths@,
            unmerged_paths@,
            unstaged_count as nat,
            views_of(unstaged_items@),
            staged_count as nat,
            views_of(staged_items@),
            views_of(log_items@),
        ),
{
    let ghost g_unstaged = views_of(unstaged_items@);
    let ghost g_staged = views_of(staged_items@);
    let ghost g_log = views_of(log_items@);
    let mut r = head_items(head);
    let mut s1 = file_section("untracked", "Untracked files", untracked_paths);
    proof {
        lemma_views_of_add(r@, s1@);
    }
    r.append(&mut s1);
    let mut s2 = file_section("unmerged", "Unmerged", unmerged_paths);
    proof {
        lemma_views_of_add(r@, s2@);
    }
    r.append(&mut s2);
    let mut s3 = create_status_section_items("Unstaged changes", unstaged_count, unstaged_items);
    proof {
        lemma_views_of_add(r@, s3@);
    }
    r.append(&mut s3);
    let mut s4 = create_status_section_items("Staged changes", staged_count, staged_items);
    proof {
        lemma_views_of_add(r@, s4@);
    }
    r.append(&mut s4);
    let mut s5 = create_log_section_items("Recent commits", log_items);
    proof {
        lemma_views_of_add(r@, s5@);
    }
    r.append(&mut s5);
    r
}

} // verus!
