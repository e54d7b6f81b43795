//! The stateful owner of an item tree: the current rows, the index of the
//! selected row (always a selectable row, or undefined when none exists), and
//! the scroll offset. Regenerated trees replace the previous one wholesale;
//! selection is restored by stable row identity.

use vstd::prelude::*;

use crate::items::{
    all_hidden, find_selectable_with_id, hide_set, id_of, lemma_find_selectable_with_id_props,
    lemma_next_selectable_props, lemma_prev_selectable_props, lemma_section_end_props,
    next_selectable, prev_selectable, section_end, section_end_from, selectable, toggled, Item,
    TargetData,
};

verus! {

/// Which way a selection movement goes.
#[derive(Clone, Copy, Debug, PartialEq, Eq, Structural)]
pub enum Direction {
    Previous,
    Next,
}

/// The index a stored `Option<usize>` selection stands for.
pub open spec fn opt_idx(o: Option<usize>) -> Option<int> {
    match o {
        Option::Some(i) => Option::Some(i as int),
        Option::None => Option::None,
    }
}

/// A selection is valid for a tree when it rests on a selectable row, or is
/// undefined exactly when the tree has no selectable row.
pub open spec fn valid_selection(rows: Seq<Item>, sel: Option<int>) -> bool {
    match sel {
        Option::Some(i) => 0 <= i < rows.len() && selectable(rows[i]),
        Option::None => next_selectable(rows, 0) is None,
    }
}

/// One movement step: to the nearest selectable row in the direction, or in
/// place when the boundary is reached (no wraparound).
pub open spec fn one_step(rows: Seq<Item>, sel: Option<int>, dir: Direction) -> Option<int> {
    match sel {
        Option::None => Option::None,
        Option::Some(i) => {
            let step = if dir is Next {
                next_selectable(rows, i + 1)
            } else {
                prev_selectable(rows, i - 1)
            };
            match step {
                Option::Some(j) => Option::Some(j),
                Option::None => Option::Some(i),
            }
        },
    }
}

/// The selection after `amount` movement steps in `dir`, clamping at the
/// first/last selectable row.
pub open spec fn advanced(rows: Seq<Item>, sel: Option<int>, dir: Direction, amount: nat) -> Option<
    int,
>
    decreases amount,
{
    if amount == 0 {
        sel
    } else {
        advanced(rows, one_step(rows, sel, dir), dir, (amount - 1) as nat)
    }
}

/// Peeling a movement step off the end instead of the front.
pub proof fn lemma_advanced_snoc(rows: Seq<Item>, sel: Option<int>, dir: Direction, n: nat)
    ensures
        advanced(rows, sel, dir, n + 1) == one_step(rows, advanced(rows, sel, dir, n), dir),
    decreases n,
{
    if n > 0 {
        lemma_advanced_snoc(rows, one_step(rows, sel, dir), dir, (n - 1) as nat);
    } else {
        assert(advanced(rows, sel, dir, 1) == advanced(rows, one_step(rows, sel, dir), dir, 0));
    }
}

/// The selection a refresh restores: the first selectable row carrying the
/// previously selected row's stable identity if that identity still exists,
/// else the first selectable row, else none.
pub open spec fn restored_selection(
    old_rows: Seq<Item>,
    old_sel: Option<int>,
    new_rows: Seq<Item>,
) -> Option<int> {
    match old_sel {
        Option::Some(i) => if 0 <= i < old_rows.len() {
            match id_of(old_rows[i]) {
                Option::Some(id) => match find_selectable_with_id(new_rows, id, 0) {
                    Option::Some(j) => Option::Some(j),
                    Option::None => next_selectable(new_rows, 0),
                },
                Option::None => next_selectable(new_rows, 0),
            }
        } else {
            next_selectable(new_rows, 0)
        },
        Option::None => next_selectable(new_rows, 0),
    }
}

/// The tree after a toggle on the given selection: changed only when the
/// selection rests on a section header.
pub open spec fn toggle_result(rows: Seq<Item>, sel: Option<int>) -> Seq<Item> {
    match sel {
        Option::Some(i) => if 0 <= i < rows.len() && rows[i].section {
            toggled(rows, i)
        } else {
            rows
        },
        Option::None => rows,
    }
}

/// The target payload of the selected row, if it carries one.
pub open spec fn target_of(rows: Seq<Item>, sel: Option<int>) -> Option<TargetData> {
    match sel {
        Option::Some(i) => if 0 <= i < rows.len() {
            rows[i].target_data
        } else {
            Option::None
        },
        Option::None => Option::None,
    }
}

/// The smallest selectable index at or after `from`, scanned forward.
fn scan_next(items: &Vec<Item>, from: usize) -> (r: Option<usize>)
    ensures
        opt_idx(r) == next_selectable(items@, from as int),
{
    let mut k = from;
    while k < items.len()
        invariant
            from <= k,
            next_selectable(items@, from as int) == next_selectable(items@, k as int),
        decreases items@.len() - k,
    {
        let it = &items[k];
        if !it.unselectable && !it.hidden {
            return Option::Some(k);
        }
        k += 1;
    }
    Option::None
}

/// The largest selectable index at or before `from`, scanned backward.
fn scan_prev(items: &Vec<Item>, from: usize) -> (r: Option<usize>)
    requires
        from < items@.len(),
    ensures
        opt_idx(r) == prev_selectable(items@, from as int),
{
    let mut k = from;
    loop
        invariant
            k <= from < items@.len(),
            prev_selectable(items@, from as int) == prev_selectable(items@, k as int),
        decreases k,
    {
        let it = &items[k];
        if !it.unselectable && !it.hidden {
            return Option::Some(k);
        }
        if k == 0 {
            proof {
                assert(prev_selectable(items@, -1) is None);
            }
            return Option::None;
        }
        k -= 1;
    }
}

/// The first selectable row of a tree.
fn first_selectable(items: &Vec<Item>) -> (r: Option<usize>)
    ensures
        opt_idx(r) == next_selectable(items@, 0),
{
    scan_next(items, 0)
}

/// The first selectable row at or after `from` whose identity is `id`.
fn find_selectable_id(items: &Vec<Item>, id: &String) -> (r: Option<usize>)
    ensures
        opt_idx(r) == find_selectable_with_id(items@, id@, 0),
{
    let mut k: usize = 0;
    while k < items.len()
        invariant
            find_selectable_with_id(items@, id@, 0) == find_selectable_with_id(
                items@,
                id@,
                k as int,
            ),
        decreases items@.len() - k,
    {
        let it = &items[k];
        if !it.unselectable && !it.hidden {
            match &it.id {
                Option::Some(s) => if s.eq(id) {
                    return Option::Some(k);
                },
                Option::None => {},
            }
        }
        k += 1;
    }
    Option::None
}

/// The selection carried over to a freshly generated tree.
fn restore_selection(old_items: &Vec<Item>, old_sel: Option<usize>, new_items: &Vec<Item>) -> (r:
    Option<usize>)
    ensures
        opt_idx(r) == restored_selection(old_items@, opt_idx(old_sel), new_items@),
{
    match old_sel {
        Option::Some(i) => {
            if i < old_items.len() {
                match &old_items[i].id {
                    Option::Some(id) => {
                        match find_selectable_id(new_items, id) {
                            Option::Some(j) => Option::Some(j),
                            Option::None => first_selectable(new_items),
                        }
                    },
                    Option::None => first_selectable(new_items),
                }
            } else {
                first_selectable(new_items)
            }
        },
        Option::None => first_selectable(new_items),
    }
}

/// A dashboard view: the current item tree, the selected row, and the scroll
/// offset. Regenerated trees replace the previous one wholesale while the
/// screen object persists.
pub struct Screen {
    items: Vec<Item>,
    selected: Option<usize>,
    scroll: usize,
}

impl Screen {
    /// The current item tree, in display order.
    pub closed spec fn rows(self) -> Seq<Item> {
        self.items@
    }

    /// The index of the selected row.
    pub closed spec fn sel(self) -> Option<int> {
        opt_idx(self.selected)
    }

    /// The scroll offset.
    pub closed spec fn scroll_pos(self) -> nat {
        self.scroll as nat
    }

    /// The selection invariant every method preserves.
    pub open spec fn wf(self) -> bool {
        valid_selection(self.rows(), self.sel())
    }

    /// A screen over a first tree, with the first selectable row selected.
    pub fn new(items: Vec<Item>) -> (s: Screen)
        ensures
            s.rows() == items@,
            s.sel() == next_selectable(items@, 0),
            s.scroll_pos() == 0,
            s.wf(),
    {
        let selected = first_selectable(&items);
        proof {
            lemma_next_selectable_props(items@, 0);
        }
        Screen { items, selected, scroll: 0 }
    }

    /// Install a freshly generated tree, or surface the generator's error.
    /// On success the new tree replaces the old one wholesale and the
    /// selection is restored by stable identity; on failure the previous
    /// tree and selection are left untouched.
    pub fn refresh(&mut self, generated: Result<Vec<Item>, String>) -> (r: Result<(), String>)
        requires
            old(self).wf(),
        ensures
            final(self).wf(),
            (generated matches Err(e) ==> r == Result::<(), String>::Err(e) && *final(self)
                == *old(self)),
            (generated matches Ok(rows) ==> r == Result::<(), String>::Ok(())
                && final(self).rows() == rows@
                && final(self).sel() == restored_selection(old(self).rows(), old(self).sel(), rows@)
                && final(self).scroll_pos() == old(self).scroll_pos()),
    {
        match generated {
            Result::Err(e) => Result::Err(e),
            Result::Ok(rows) => {
                let new_sel = restore_selection(&self.items, self.selected, &rows);
                self.items = rows;
                self.selected = new_sel;
                proof {
                    let orows = old(self).rows();
                    let osel = old(self).sel();
                    let nrows = self.items@;
                    lemma_next_selectable_props(nrows, 0);
                    match osel {
                        Option::Some(i) => {
                            if 0 <= i < orows.len() {
                                match id_of(orows[i]) {
                                    Option::Some(id) => {
                                        lemma_find_selectable_with_id_props(nrows, id, 0);
                                    },
                                    Option::None => {},
                                }
                            }
                        },
                        Option::None => {},
                    }
                }
                Result::Ok(())
            },
        }
    }

    /// Move the selection `amount` selectable rows in `dir`, skipping
    /// unselectable and hidden rows, clamping at the first/last selectable
    /// row. Half-page movement passes a caller-supplied page size as
    /// `amount`.
    pub fn move_selection(&mut self, dir: Direction, amount: usize)
        requires
            old(self).wf(),
        ensures
            final(self).wf(),
            final(self).rows() == old(self).rows(),
            final(self).scroll_pos() == old(self).scroll_pos(),
            final(self).sel() == advanced(old(self).rows(), old(self).sel(), dir, amount as nat),
    {
        let mut n: usize = 0;
        while n < amount
            invariant
                n <= amount,
                self.wf(),
                self.rows() == old(self).rows(),
                self.scroll_pos() == old(self).scroll_pos(),
                self.sel() == advanced(old(self).rows(), old(self).sel(), dir, n as nat),
            decreases amount - n,
        {
            proof {
                lemma_advanced_snoc(old(self).rows(), old(self).sel(), dir, n as nat);
            }
            match self.selected {
                Option::None => {},
                Option::Some(i) => {
                    let _len = self.items.len();
                    let step = match dir {
                        Direction::Next => scan_next(&self.items, i + 1),
                        Direction::Previous => {
                            if i == 0 {
                                Option::None
                            } else {
                                scan_prev(&self.items, i - 1)
                            }
                        },
                    };
                    proof {
                        if dir is Next {
                            lemma_next_selectable_props(self.items@, i + 1);
                        } else {
                            if i > 0 {
                                lemma_prev_selectable_props(self.items@, i - 1);
                            }
                        }
                    }
                    match step {
                        Option::Some(j) => {
                            self.selected = Option::Some(j);
                        },
                        Option::None => {},
                    }
                },
            }
            n += 1;
        }
    }

    /// If the selected row is a section header, toggle the visibility of the
    /// rows strictly inside its section: shown when all were hidden, hidden
    /// otherwise. The underlying row sequence keeps its length; hidden rows
    /// stay in the tree. Anything else is a no-op.
    pub fn toggle_section(&mut self)
        requires
            old(self).wf(),
        ensures
            final(self).wf(),
            final(self).sel() == old(self).sel(),
            final(self).scroll_pos() == old(self).scroll_pos(),
            final(self).rows() == toggle_result(old(self).rows(), old(self).sel()),
            final(self).rows().len() == old(self).rows().len(),
    {
        let i = match self.selected {
            Option::Some(i) => i,
            Option::None => {
                return ;
            },
        };
        let _len = self.items.len();
        if !self.items[i].section {
            return ;
        }
        let ghost rows0 = self.items@;
        let d = self.items[i].depth;

        // One past the section's last row.
        let mut e: usize = i + 1;
        while e < self.items.len() && self.items[e].depth > d
            invariant
                i + 1 <= e <= self.items@.len(),
                self.items@ == rows0,
                section_end_from(rows0, d as int, i + 1) == section_end_from(
                    rows0,
                    d as int,
                    e as int,
                ),
            decreases self.items@.len() - e,
        {
            e += 1;
        }
        proof {
            assert(section_end(rows0, i as int) == e as int);
        }

        // Shown when all rows in the section are hidden, hidden otherwise.
        let mut allh = true;
        let mut k = i + 1;
        while k < e
            invariant
                i + 1 <= k <= e <= self.items@.len(),
                self.items@ == rows0,
                allh == all_hidden(rows0, i + 1, k as int),
            decreases e - k,
        {
            if !self.items[k].hidden {
                allh = false;
            }
            proof {
                assert(all_hidden(rows0, i + 1, k + 1) == (all_hidden(rows0, i + 1, k as int)
                    && rows0[k as int].hidden));
            }
            k += 1;
        }
        let v = !allh;

        let mut k = i + 1;
        while k < e
            invariant
                i + 1 <= k <= e <= self.items@.len(),
                self.items@.len() == rows0.len(),
                e as int == section_end(rows0, i as int),
                v == !all_hidden(rows0, i + 1, e as int),
                self.sel() == old(self).sel(),
                self.scroll_pos() == old(self).scroll_pos(),
                forall|j: int| i < j < k ==> self.items@[j] == hide_set(rows0[j], v),
                forall|j: int|
                    0 <= j < rows0.len() && !(i < j < k) ==> self.items@[j] == rows0[j],
            decreases e - k,
        {
            self.items[k].hidden = v;
            k += 1;
        }
        proof {
            assert(self.items@ =~= toggled(rows0, i as int));
        }
    }

    /// The target payload of the selected row: the sole bridge between a
    /// target operation and the command executor. Nothing when no row is
    /// selected or the row carries no payload; the screen never interprets
    /// the payload.
    pub fn resolve_target(&self) -> (r: Option<&TargetData>)
        ensures
            match r {
                Option::Some(t) => target_of(self.rows(), self.sel()) == Option::Some(*t),
                Option::None => target_of(self.rows(), self.sel()) is None,
            },
    {
        match self.selected {
            Option::Some(i) => {
                if i < self.items.len() {
                    self.items[i].target_data.as_ref()
                } else {
                    Option::None
                }
            },
            Option::None => Option::None,
        }
    }

    /// The indices of the rows a renderer shows, in display order: exactly
    /// the rows that are not hidden by a collapsed section.
    pub fn visible_indices(&self) -> (r: Vec<usize>)
        ensures
            forall|a: int, b: int| 0 <= a < b < r@.len() ==> r@[a] < r@[b],
            forall|a: int|
                0 <= a < r@.len() ==> r@[a] < self.rows().len() && !self.rows()[r@[a] as int].hidden,
            forall|j: int|
                0 <= j < self.rows().len() && !self.rows()[j].hidden ==> r@.contains(j as usize),
    {
        let mut r: Vec<usize> = Vec::new();
        let mut i: usize = 0;
        while i < self.items.len()
            invariant
                i <= self.items@.len(),
                forall|a: int, b: int| 0 <= a < b < r@.len() ==> r@[a] < r@[b],
                forall|a: int| 0 <= a < r@.len() ==> r@[a] < i && !self.items@[r@[a] as int].hidden,
                forall|j: int| 0 <= j < i && !self.items@[j].hidden ==> r@.contains(j as usize),
            decreases self.items@.len() - i,
        {
            let ghost r0 = r@;
            if !self.items[i].hidden {
                r.push(i);
            }
            proof {
                assert forall|j: int|
                    0 <= j < i + 1 && !self.items@[j].hidden implies r@.contains(j as usize) by {
                    if j < i {
                        let k = choose|k: int| 0 <= k < r0.len() && r0[k] == j as usize;
                        assert(r@[k] == j as usize);
                    } else {
                        assert(r@[r@.len() - 1] == i as usize);
                    }
                }
            }
            i += 1;
        }
        r
    }

    /// The rows, for a renderer or a test to read.
    pub fn items(&self) -> (r: &Vec<Item>)
        ensures
            r@ == self.rows(),
    {
        &self.items
    }

    /// The index of the selected row, if any.
    pub fn selected_index(&self) -> (r: Option<usize>)
        ensures
            opt_idx(r) == self.sel(),
    {
        self.selected
    }

    /// The scroll offset.
    pub fn scroll(&self) -> (r: usize)
        ensures
            r as nat == self.scroll_pos(),
    {
        self.scroll
    }

    /// Set the scroll offset; the renderer owns the policy.
    pub fn set_scroll(&mut self, scroll: usize)
        ensures
            final(self).rows() == old(self).rows(),
            final(self).sel() == old(self).sel(),
            final(self).scroll_pos() == scroll as nat,
            old(self).wf() ==> final(self).wf(),
    {
        self.scroll = scroll;
    }
}

/// Movement clamps: at the last selectable row, any amount of forward
/// movement leaves the selection unchanged (no wraparound, no out-of-range
/// index).
pub proof fn lemma_move_clamps_at_last(rows: Seq<Item>, i: int, amount: nat)
    requires
        0 <= i < rows.len(),
        selectable(rows[i]),
        next_selectable(rows, i + 1) is None,
    ensures
        advanced(rows, Option::Some(i), Direction::Next, amount) == Option::Some(i),
    decreases amount,
{
    if amount > 0 {
        lemma_move_clamps_at_last(rows, i, (amount - 1) as nat);
    }
}

/// Collapse/expand is a pure visibility toggle: however often a section is
/// toggled, the underlying row sequence keeps its length, and every field of
/// every row but the visibility flag is unchanged — only the visible
/// subsequence changes.
pub proof fn lemma_toggle_is_pure_visibility(rows: Seq<Item>, sel: Option<int>)
    ensures
        toggle_result(rows, sel).len() == rows.len(),
        forall|j: int|
            0 <= j < rows.len() ==> {
                let t = #[trigger] toggle_result(rows, sel)[j];
                t.id == rows[j].id && t.display == rows[j].display && t.depth == rows[j].depth
                    && t.section == rows[j].section && t.unselectable == rows[j].unselectable
                    && t.target_data == rows[j].target_data
            },
{
}

/// Refresh is idempotent: installing the same generated rows twice in
/// succession, with no intervening mutation, leaves both the tree and the
/// selection of the second install equal to the first's.
pub proof fn lemma_refresh_idempotent(
    old_rows: Seq<Item>,
    old_sel: Option<int>,
    rows: Seq<Item>,
)
    ensures
        restored_selection(rows, restored_selection(old_rows, old_sel, rows), rows)
            == restored_selection(old_rows, old_sel, rows),
{
    let sel1 = restored_selection(old_rows, old_sel, rows);
    lemma_next_selectable_props(rows, 0);
    match sel1 {
        Option::None => {
        },
        Option::Some(j) => {
            // sel1 came either from an identity lookup or from the first
            // selectable row; in both cases j is the first selectable row
            // that carries its own identity.
            let via_id = match old_sel {
                Option::Some(i) => 0 <= i < old_rows.len() && id_of(old_rows[i]) is Some
                    && find_selectable_with_id(rows, id_of(old_rows[i])->Some_0, 0) is Some,
                Option::None => false,
            };
            if via_id {
                let i = old_sel->Some_0;
                let id = id_of(old_rows[i])->Some_0;
                lemma_find_selectable_with_id_props(rows, id, 0);
                assert(id_of(rows[j]) == Option::Some(id));
                lemma_find_selectable_with_id_props(rows, id_of(rows[j])->Some_0, 0);
            } else {
                // j is the first selectable row outright.
                assert(Option::Some(j) == next_selectable(rows, 0));
                match id_of(rows[j]) {
                    Option::Some(idj) => {
                        lemma_find_selectable_with_id_props(rows, idj, 0);
                        match find_selectable_with_id(rows, idj, 0) {
                            Option::Some(k) => {
                                assert(selectable(rows[k]));
                                assert(!(k < j));
                                assert(!(j < k));
                            },
                            Option::None => {
                                assert(false);
                            },
                        }
                    },
                    Option::None => {
                    },
                }
            }
        },
    }
}

/// Selection stability: when the selected row's stable identity persists
/// across a refresh, the restored selection carries that same identity, even
/// if its position changed.
pub proof fn lemma_selection_stable(
    old_rows: Seq<Item>,
    i: int,
    new_rows: Seq<Item>,
    id: Seq<char>,
    j: int,
)
    requires
        0 <= i < old_rows.len(),
        id_of(old_rows[i]) == Option::Some(id),
        0 <= j < new_rows.len(),
        selectable(new_rows[j]),
        id_of(new_rows[j]) == Option::Some(id),
    ensures
        match restored_selection(old_rows, Option::Some(i), new_rows) {
            Option::Some(k) => 0 <= k < new_rows.len() && selectable(new_rows[k]) && id_of(
                new_rows[k],
            ) == Option::Some(id),
            Option::None => false,
        },
{
    lemma_find_selectable_with_id_props(new_rows, id, 0);
}

} // verus!
