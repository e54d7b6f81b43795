//! Rows of the item tree: one addressable, displayable unit each, with an
//! optional stable identity, a depth for indentation, section-header and
//! unselectable flags, a collapse-visibility flag, and an optional target
//! payload. Hierarchy is pure depth annotation on a flat ordered sequence.

use vstd::prelude::*;

verus! {

/// The opaque payload a target operation is resolved against: a commit or
/// branch reference, a file path, or a hunk of a file's diff.
#[derive(Clone, Debug, PartialEq, Eq)]
pub enum TargetData {
    Ref(String),
    File(String),
    Hunk(String, usize),
}

/// One displayable/selectable row of an item tree.
#[derive(Clone, Debug, PartialEq, Eq)]
pub struct Item {
    /// Stable identity used to preserve selection across refreshes.
    pub id: Option<String>,
    /// Display payload, unstyled.
    pub display: String,
    /// Nesting level, for indentation only.
    pub depth: usize,
    /// Whether the row heads a collapsible section.
    pub section: bool,
    /// Unselectable rows (blank spacers, plain message lines) are skipped by
    /// navigation.
    pub unselectable: bool,
    /// Collapse state: hidden rows are excluded from rendering and from
    /// navigation but stay in the underlying tree.
    pub hidden: bool,
    /// Payload handed to the command executor by target operations.
    pub target_data: Option<TargetData>,
}

/// The mathematical value of a target payload.
pub enum TargetDataView {
    Ref(Seq<char>),
    File(Seq<char>),
    Hunk(Seq<char>, nat),
}

impl View for TargetData {
    type V = TargetDataView;

    open spec fn view(&self) -> TargetDataView {
        match self {
            TargetData::Ref(s) => TargetDataView::Ref(s@),
            TargetData::File(s) => TargetDataView::File(s@),
            TargetData::Hunk(s, i) => TargetDataView::Hunk(s@, *i as nat),
        }
    }
}

/// The mathematical value of a row.
pub struct ItemView {
    pub id: Option<Seq<char>>,
    pub display: Seq<char>,
    pub depth: nat,
    pub section: bool,
    pub unselectable: bool,
    pub hidden: bool,
    pub target_data: Option<TargetDataView>,
}

impl View for Item {
    type V = ItemView;

    open spec fn view(&self) -> ItemView {
        ItemView {
            id: match self.id {
                Option::Some(s) => Option::Some(s@),
                Option::None => Option::None,
            },
            display: self.display@,
            depth: self.depth as nat,
            section: self.section,
            unselectable: self.unselectable,
            hidden: self.hidden,
            target_data: match self.target_data {
                Option::Some(t) => Option::Some(t@),
                Option::None => Option::None,
            },
        }
    }
}

/// The rows' mathematical values, in order.
pub open spec fn views_of(rows: Seq<Item>) -> Seq<ItemView> {
    rows.map_values(|it: Item| it@)
}

/// The blank spacer row's value.
pub open spec fn blank_view() -> ItemView {
    ItemView {
        id: Option::None,
        display: Seq::<char>::empty(),
        depth: 0,
        section: false,
        unselectable: true,
        hidden: false,
        target_data: Option::None,
    }
}

/// A blank, unselectable spacer row, emitted before each new top-level
/// section except the first.
pub fn blank_line() -> (r: Item)
    ensures
        r@ == blank_view(),
{
    Item {
        id: Option::None,
        display: String::new(),
        depth: 0,
        section: false,
        unselectable: true,
        hidden: false,
        target_data: Option::None,
    }
}

/// A row navigation may rest on: neither unselectable nor hidden.
pub open spec fn selectable(it: Item) -> bool {
    !it.unselectable && !it.hidden
}

/// The row's stable identity, as a character sequence.
pub open spec fn id_of(it: Item) -> Option<Seq<char>> {
    match it.id {
        Option::Some(s) => Option::Some(s@),
        Option::None => Option::None,
    }
}

/// The smallest index at or after `from` holding a selectable row.
pub open spec fn next_selectable(rows: Seq<Item>, from: int) -> Option<int>
    decreases rows.len() - from,
{
    if from < 0 || from >= rows.len() {
        Option::None
    } else if selectable(rows[from]) {
        Option::Some(from)
    } else {
        next_selectable(rows, from + 1)
    }
}

/// The largest index at or before `from` holding a selectable row.
pub open spec fn prev_selectable(rows: Seq<Item>, from: int) -> Option<int>
    decreases from + 1,
{
    if from < 0 || from >= rows.len() {
        Option::None
    } else if selectable(rows[from]) {
        Option::Some(from)
    } else {
        prev_selectable(rows, from - 1)
    }
}

/// The smallest index at or after `from` holding a selectable row whose
/// identity is `id`.
pub open spec fn find_selectable_with_id(rows: Seq<Item>, id: Seq<char>, from: int) -> Option<int>
    decreases rows.len() - from,
{
    if from < 0 || from >= rows.len() {
        Option::None
    } else if selectable(rows[from]) && id_of(rows[from]) == Option::Some(id) {
        Option::Some(from)
    } else {
        find_selectable_with_id(rows, id, from + 1)
    }
}

/// What `next_selectable` returns: the first selectable index at or after
/// `from`, or nothing when none exists.
pub proof fn lemma_next_selectable_props(rows: Seq<Item>, from: int)
    requires
        0 <= from,
    ensures
        match next_selectable(rows, from) {
            Option::Some(i) => from <= i < rows.len() && selectable(rows[i]) && (forall|j: int|
                from <= j < i ==> !selectable(rows[j])),
            Option::None => forall|j: int| from <= j < rows.len() ==> !selectable(rows[j]),
        },
    decreases rows.len() - from,
{
    if from < 0 || from >= rows.len() {
    } else if selectable(rows[from]) {
    } else {
        lemma_next_selectable_props(rows, from + 1);
    }
}

/// What `prev_selectable` returns: the last selectable index at or before
/// `from`, or nothing when none exists there.
pub proof fn lemma_prev_selectable_props(rows: Seq<Item>, from: int)
    requires
        from < rows.len(),
    ensures
        match prev_selectable(rows, from) {
            Option::Some(i) => 0 <= i <= from && selectable(rows[i]) && (forall|j: int|
                i < j <= from ==> !selectable(rows[j])),
            Option::None => forall|j: int| 0 <= j <= from ==> !selectable(rows[j]),
        },
    decreases from + 1,
{
    if from < 0 {
    } else if selectable(rows[from]) {
    } else {
        lemma_prev_selectable_props(rows, from - 1);
    }
}

/// What `find_selectable_with_id` returns: the first selectable index at or
/// after `from` whose identity is `id`, or nothing when none exists.
pub proof fn lemma_find_selectable_with_id_props(rows: Seq<Item>, id: Seq<char>, from: int)
    requires
        0 <= from,
    ensures
        match find_selectable_with_id(rows, id, from) {
            Option::Some(i) => from <= i < rows.len() && selectable(rows[i]) && id_of(rows[i])
                == Option::Some(id) && (forall|j: int|
                from <= j < i ==> !(selectable(rows[j]) && id_of(rows[j]) == Option::Some(id))),
            Option::None => forall|j: int|
                from <= j < rows.len() ==> !(selectable(rows[j]) && id_of(rows[j])
                    == Option::Some(id)),
        },
    decreases rows.len() - from,
{
    if from < 0 || from >= rows.len() {
    } else if selectable(rows[from]) && id_of(rows[from]) == Option::Some(id) {
    } else {
        lemma_find_selectable_with_id_props(rows, id, from + 1);
    }
}

/// The first index strictly after `k - 1` at which a row's depth returns to
/// `d` or less, or the length when the section runs to the end.
pub open spec fn section_end_from(rows: Seq<Item>, d: int, k: int) -> int
    decreases rows.len() - k,
{
    if k < 0 || k >= rows.len() {
        rows.len() as int
    } else if rows[k].depth <= d {
        k
    } else {
        section_end_from(rows, d, k + 1)
    }
}

/// One past the last row of the section headed at `h`: the first index after
/// `h` whose depth is at or above the header's.
pub open spec fn section_end(rows: Seq<Item>, h: int) -> int {
    section_end_from(rows, rows[h].depth as int, h + 1)
}

/// Where `section_end_from` lands: between `k` and the length, at a depth
/// bound, with everything before it strictly deeper.
pub proof fn lemma_section_end_props(rows: Seq<Item>, d: int, k: int)
    requires
        0 <= k <= rows.len(),
    ensures
        k <= section_end_from(rows, d, k) <= rows.len(),
        forall|j: int| k <= j < section_end_from(rows, d, k) ==> rows[j].depth > d,
        section_end_from(rows, d, k) < rows.len() ==> rows[section_end_from(rows, d, k)].depth
            <= d,
    decreases rows.len() - k,
{
    if k < 0 || k >= rows.len() {
    } else if rows[k].depth <= d {
    } else {
        lemma_section_end_props(rows, d, k + 1);
    }
}

/// Every row in `[lo, hi)` is hidden.
pub open spec fn all_hidden(rows: Seq<Item>, lo: int, hi: int) -> bool {
    forall|j: int| lo <= j < hi ==> rows[j].hidden
}

/// `it` with its collapse-visibility flag set to `v`.
pub open spec fn hide_set(it: Item, v: bool) -> Item {
    Item { hidden: v, ..it }
}

/// The tree after toggling the section headed at `h`: rows strictly inside
/// the section get their hidden flag set (shown when all were hidden, hidden
/// otherwise); every other row, the header included, is unchanged.
pub open spec fn toggled(rows: Seq<Item>, h: int) -> Seq<Item> {
    let e = section_end(rows, h);
    let v = !all_hidden(rows, h + 1, e);
    rows.map(|j: int, it: Item| if h < j < e { hide_set(it, v) } else { it })
}


} // verus!
