//! The declarative keybinding table and the modal dispatch resolver: an
//! ordered sequence of bindings, searched front to back, where a binding is
//! live when its scope equals the active menu context or is the wildcard
//! scope. Table order is the tie-break authority.

use vstd::prelude::*;

use crate::keys::{Key, KeyEvent, Modifiers};
use crate::ops::{Op, SubmenuOp, TargetOp};
use crate::strfmt::{decimal_spec, push_char, u64_to_string, upper_char, upper_char_spec};

verus! {

/// One rule of the dispatch table: in menu context `submenu`, the key `key`
/// held with exactly `mods` resolves to `op`.
#[derive(Clone, Copy, Debug, PartialEq, Eq, Structural)]
pub struct Keybind {
    pub submenu: SubmenuOp,
    pub mods: Modifiers,
    pub key: Key,
    pub op: Op,
}

/// A binding with no modifier.
pub open spec fn bind_nomod(submenu: SubmenuOp, key: Key, op: Op) -> Keybind {
    Keybind { submenu, mods: Modifiers { control: false, shift: false, alt: false }, key, op }
}

/// A binding with the control modifier alone.
pub open spec fn bind_ctrl(submenu: SubmenuOp, key: Key, op: Op) -> Keybind {
    Keybind { submenu, mods: Modifiers { control: true, shift: false, alt: false }, key, op }
}

/// A binding with the shift modifier alone.
pub open spec fn bind_shift(submenu: SubmenuOp, key: Key, op: Op) -> Keybind {
    Keybind { submenu, mods: Modifiers { control: false, shift: true, alt: false }, key, op }
}

impl Keybind {
    /// A binding with no modifier.
    pub fn nomod(submenu: SubmenuOp, key: Key, op: Op) -> (r: Keybind)
        ensures
            r == bind_nomod(submenu, key, op),
    {
        Keybind { submenu, mods: Modifiers::none(), key, op }
    }

    /// A binding with the control modifier alone.
    pub fn ctrl(submenu: SubmenuOp, key: Key, op: Op) -> (r: Keybind)
        ensures
            r == bind_ctrl(submenu, key, op),
    {
        Keybind { submenu, mods: Modifiers::control(), key, op }
    }

    /// A binding with the shift modifier alone.
    pub fn shift(submenu: SubmenuOp, key: Key, op: Op) -> (r: Keybind)
        ensures
            r == bind_shift(submenu, key, op),
    {
        Keybind { submenu, mods: Modifiers::shift(), key, op }
    }
}

/// The whole dispatch table, in authoritative order. Wildcard entries stand
/// first, so a wildcard binding for a key shadows any scope-specific binding
/// for the same key declared later.
pub open spec fn keybinds_spec() -> Seq<Keybind> {
    seq![
        // Generic
        bind_nomod(SubmenuOp::Any, Key::Char('q'), Op::Quit),
        bind_nomod(SubmenuOp::Any, Key::Esc, Op::Quit),
        bind_nomod(SubmenuOp::Root, Key::Char('g'), Op::Refresh),
        bind_nomod(SubmenuOp::Root, Key::Tab, Op::ToggleSection),
        // Navigation
        bind_nomod(SubmenuOp::Root, Key::Char('k'), Op::SelectPrevious),
        bind_nomod(SubmenuOp::Root, Key::Char('p'), Op::SelectPrevious),
        bind_nomod(SubmenuOp::Root, Key::Up, Op::SelectPrevious),
        bind_nomod(SubmenuOp::Root, Key::Char('j'), Op::SelectNext),
        bind_nomod(SubmenuOp::Root, Key::Char('n'), Op::SelectNext),
        bind_nomod(SubmenuOp::Root, Key::Down, Op::SelectNext),
        bind_ctrl(SubmenuOp::Root, Key::Char('u'), Op::HalfPageUp),
        bind_ctrl(SubmenuOp::Root, Key::Char('d'), Op::HalfPageDown),
        // Help
        bind_nomod(SubmenuOp::Root, Key::Char('h'), Op::Submenu(SubmenuOp::Help)),
        // Branch
        bind_nomod(SubmenuOp::Root, Key::Char('b'), Op::Submenu(SubmenuOp::Branch)),
        bind_nomod(SubmenuOp::Branch, Key::Char('b'), Op::Target(TargetOp::Checkout)),
        bind_nomod(SubmenuOp::Branch, Key::Char('c'), Op::CheckoutNewBranch),
        // Commit
        bind_nomod(SubmenuOp::Root, Key::Char('c'), Op::Submenu(SubmenuOp::Commit)),
        bind_nomod(SubmenuOp::Commit, Key::Char('c'), Op::Commit),
        bind_nomod(SubmenuOp::Commit, Key::Char('a'), Op::CommitAmend),
        bind_nomod(SubmenuOp::Commit, Key::Char('f'), Op::Target(TargetOp::CommitFixup)),
        // Fetch
        bind_nomod(SubmenuOp::Root, Key::Char('f'), Op::Submenu(SubmenuOp::Fetch)),
        bind_nomod(SubmenuOp::Fetch, Key::Char('a'), Op::FetchAll),
        // Log
        bind_nomod(SubmenuOp::Root, Key::Char('l'), Op::Submenu(SubmenuOp::Log)),
        bind_nomod(SubmenuOp::Log, Key::Char('l'), Op::LogCurrent),
        bind_nomod(SubmenuOp::Log, Key::Char('o'), Op::Target(TargetOp::LogOther)),
        // Pull
        bind_shift(SubmenuOp::Root, Key::Char('F'), Op::Submenu(SubmenuOp::Pull)),
        bind_nomod(SubmenuOp::Pull, Key::Char('p'), Op::Pull),
        // Push
        bind_shift(SubmenuOp::Root, Key::Char('P'), Op::Submenu(SubmenuOp::Push)),
        bind_nomod(SubmenuOp::Push, Key::Char('p'), Op::Push),
        // Rebase
        bind_nomod(SubmenuOp::Root, Key::Char('r'), Op::Submenu(SubmenuOp::Rebase)),
        bind_nomod(SubmenuOp::Rebase, Key::Char('i'), Op::Target(TargetOp::RebaseInteractive)),
        bind_nomod(SubmenuOp::Rebase, Key::Char('a'), Op::RebaseAbort),
        bind_nomod(SubmenuOp::Rebase, Key::Char('c'), Op::RebaseContinue),
        bind_nomod(SubmenuOp::Rebase, Key::Char('f'), Op::Target(TargetOp::RebaseAutosquash)),
        // Reset
        bind_nomod(SubmenuOp::Root, Key::Char('x'), Op::Submenu(SubmenuOp::Reset)),
        bind_nomod(SubmenuOp::Reset, Key::Char('s'), Op::Target(TargetOp::ResetSoft)),
        bind_nomod(SubmenuOp::Reset, Key::Char('m'), Op::Target(TargetOp::ResetMixed)),
        bind_nomod(SubmenuOp::Reset, Key::Char('h'), Op::Target(TargetOp::ResetHard)),
        // Show refs
        bind_nomod(SubmenuOp::Root, Key::Char('y'), Op::ShowRefs),
        // Discard
        bind_shift(SubmenuOp::Root, Key::Char('K'), Op::Submenu(SubmenuOp::Discard)),
        bind_nomod(SubmenuOp::Discard, Key::Char('y'), Op::Target(TargetOp::Discard)),
        bind_nomod(SubmenuOp::Discard, Key::Char('n'), Op::Quit),
        // Target actions
        bind_nomod(SubmenuOp::Root, Key::Enter, Op::Target(TargetOp::Show)),
        bind_nomod(SubmenuOp::Root, Key::Char('s'), Op::Target(TargetOp::Stage)),
        bind_nomod(SubmenuOp::Root, Key::Char('u'), Op::Target(TargetOp::Unstage)),
    ]
}

/// The dispatch table as a vector, in authoritative order.
pub fn keybinds() -> (v: Vec<Keybind>)
    ensures
        v@ == keybinds_spec(),
{
    let mut v: Vec<Keybind> = Vec::new();
    v.push(Keybind::nomod(SubmenuOp::Any, Key::Char('q'), Op::Quit));
    v.push(Keybind::nomod(SubmenuOp::Any, Key::Esc, Op::Quit));
    v.push(Keybind::nomod(SubmenuOp::Root, Key::Char('g'), Op::Refresh));
    v.push(Keybind::nomod(SubmenuOp::Root, Key::Tab, Op::ToggleSection));
    v.push(Keybind::nomod(SubmenuOp::Root, Key::Char('k'), Op::SelectPrevious));
    v.push(Keybind::nomod(SubmenuOp::Root, Key::Char('p'), Op::SelectPrevious));
    v.push(Keybind::nomod(SubmenuOp::Root, Key::Up, Op::SelectPrevious));
    v.push(Keybind::nomod(SubmenuOp::Root, Key::Char('j'), Op::SelectNext));
    v.push(Keybind::nomod(SubmenuOp::Root, Key::Char('n'), Op::SelectNext));
    v.push(Keybind::nomod(SubmenuOp::Root, Key::Down, Op::SelectNext));
    v.push(Keybind::ctrl(SubmenuOp::Root, Key::Char('u'), Op::HalfPageUp));
    v.push(Keybind::ctrl(SubmenuOp::Root, Key::Char('d'), Op::HalfPageDown));
    v.push(Keybind::nomod(SubmenuOp::Root, Key::Char('h'), Op::Submenu(SubmenuOp::Help)));
    v.push(Keybind::nomod(SubmenuOp::Root, Key::Char('b'), Op::Submenu(SubmenuOp::Branch)));
    v.push(Keybind::nomod(SubmenuOp::Branch, Key::Char('b'), Op::Target(TargetOp::Checkout)));
    v.push(Keybind::nomod(SubmenuOp::Branch, Key::Char('c'), Op::CheckoutNewBranch));
    v.push(Keybind::nomod(SubmenuOp::Root, Key::Char('c'), Op::Submenu(SubmenuOp::Commit)));
    v.push(Keybind::nomod(SubmenuOp::Commit, Key::Char('c'), Op::Commit));
    v.push(Keybind::nomod(SubmenuOp::Commit, Key::Char('a'), Op::CommitAmend));
    v.push(Keybind::nomod(SubmenuOp::Commit, Key::Char('f'), Op::Target(TargetOp::CommitFixup)));
    v.push(Keybind::nomod(SubmenuOp::Root, Key::Char('f'), Op::Submenu(SubmenuOp::Fetch)));
    v.push(Keybind::nomod(SubmenuOp::Fetch, Key::Char('a'), Op::FetchAll));
    v.push(Keybind::nomod(SubmenuOp::Root, Key::Char('l'), Op::Submenu(SubmenuOp::Log)));
    v.push(Keybind::nomod(SubmenuOp::Log, Key::Char('l'), Op::LogCurrent));
    v.push(Keybind::nomod(SubmenuOp::Log, Key::Char('o'), Op::Target(TargetOp::LogOther)));
    v.push(Keybind::shift(SubmenuOp::Root, Key::Char('F'), Op::Submenu(SubmenuOp::Pull)));
    v.push(Keybind::nomod(SubmenuOp::Pull, Key::Char('p'), Op::Pull));
    v.push(Keybind::shift(SubmenuOp::Root, Key::Char('P'), Op::Submenu(SubmenuOp::Push)));
    v.push(Keybind::nomod(SubmenuOp::Push, Key::Char('p'), Op::Push));
    v.push(Keybind::nomod(SubmenuOp::Root, Key::Char('r'), Op::Submenu(SubmenuOp::Rebase)));
    v.push(Keybind::nomod(SubmenuOp::Rebase, Key::Char('i'), Op::Target(TargetOp::RebaseInteractive)));
    v.push(Keybind::nomod(SubmenuOp::Rebase, Key::Char('a'), Op::RebaseAbort));
    v.push(Keybind::nomod(SubmenuOp::Rebase, Key::Char('c'), Op::RebaseContinue));
    v.push(Keybind::nomod(SubmenuOp::Rebase, Key::Char('f'), Op::Target(TargetOp::RebaseAutosquash)));
    v.push(Keybind::nomod(SubmenuOp::Root, Key::Char('x'), Op::Submenu(SubmenuOp::Reset)));
    v.push(Keybind::nomod(SubmenuOp::Reset, Key::Char('s'), Op::Target(TargetOp::ResetSoft)));
    v.push(Keybind::nomod(SubmenuOp::Reset, Key::Char('m'), Op::Target(TargetOp::ResetMixed)));
    v.push(Keybind::nomod(SubmenuOp::Reset, Key::Char('h'), Op::Target(TargetOp::ResetHard)));
    v.push(Keybind::nomod(SubmenuOp::Root, Key::Char('y'), Op::ShowRefs));
    v.push(Keybind::shift(SubmenuOp::Root, Key::Char('K'), Op::Submenu(SubmenuOp::Discard)));
    v.push(Keybind::nomod(SubmenuOp::Discard, Key::Char('y'), Op::Target(TargetOp::Discard)));
    v.push(Keybind::nomod(SubmenuOp::Discard, Key::Char('n'), Op::Quit));
    v.push(Keybind::nomod(SubmenuOp::Root, Key::Enter, Op::Target(TargetOp::Show)));
    v.push(Keybind::nomod(SubmenuOp::Root, Key::Char('s'), Op::Target(TargetOp::Stage)));
    v.push(Keybind::nomod(SubmenuOp::Root, Key::Char('u'), Op::Target(TargetOp::Unstage)));
    proof {
        assert(v@ =~= keybinds_spec());
    }
    v
}

/// A binding is live for `(pending, mods, key)` when its modifiers and key
/// equal the event's and its scope equals the active context or is the
/// wildcard.
pub open spec fn binding_matches(b: Keybind, pending: SubmenuOp, mods: Modifiers, key: Key) -> bool {
    b.mods == mods && b.key == key && (b.submenu == pending || b.submenu == SubmenuOp::Any)
}

/// The operation of the first live binding in the table, if any: a single
/// linear first-match search over the combined exact-scope-or-wildcard
/// predicate.
pub open spec fn resolve_spec(
    table: Seq<Keybind>,
    pending: SubmenuOp,
    mods: Modifiers,
    key: Key,
) -> Option<Op>
    decreases table.len(),
{
    if table.len() == 0 {
        None
    } else if binding_matches(table[0], pending, mods, key) {
        Some(table[0].op)
    } else {
        resolve_spec(table.drop_first(), pending, mods, key)
    }
}

/// Resolve a key event against the table in the active menu context.
/// An event that matches nothing resolves to nothing and is ignored.
pub fn op_of_key_event(pending: SubmenuOp, key: KeyEvent) -> (r: Option<Op>)
    ensures
        r == resolve_spec(keybinds_spec(), pending, key.modifiers, key.code),
{
    let table = keybinds();
    let mut i: usize = 0;
    proof {
        assert(keybinds_spec().skip(0) =~= keybinds_spec());
    }
    while i < table.len()
        invariant
            i <= table@.len(),
            table@ == keybinds_spec(),
            resolve_spec(keybinds_spec(), pending, key.modifiers, key.code) == resolve_spec(
                keybinds_spec().skip(i as int),
                pending,
                key.modifiers,
                key.code,
            ),
        decreases table@.len() - i,
    {
        let b = table[i];
        proof {
            assert(keybinds_spec().skip(i as int)[0] == table@[i as int]);
        }
        if b.mods == key.modifiers && b.key == key.code && (b.submenu == pending || b.submenu
            == SubmenuOp::Any) {
            return Some(b.op);
        }
        proof {
            assert(keybinds_spec().skip(i as int).drop_first() =~= keybinds_spec().skip(
                i as int + 1,
            ));
        }
        i += 1;
    }
    proof {
        assert(keybinds_spec().skip(keybinds_spec().len() as int).len() == 0);
    }
    None
}

/// The scope whose bindings the hint overlay shows: the help context shows
/// the root context's bindings, every other context shows its own.
pub open spec fn effective_scope(pending: SubmenuOp) -> SubmenuOp {
    if pending == SubmenuOp::Help {
        SubmenuOp::Root
    } else {
        pending
    }
}

/// Membership in the hint listing: scope equality alone; wildcard bindings
/// are deliberately excluded.
pub open spec fn scope_pred(scope: SubmenuOp) -> spec_fn(Keybind) -> bool {
    |b: Keybind| b.submenu == scope
}

/// The bindings shown by the contextual hint overlay for the active context,
/// in table order.
pub fn list(pending: &SubmenuOp) -> (r: Vec<Keybind>)
    ensures
        r@ == keybinds_spec().filter(scope_pred(effective_scope(*pending))),
{
    let expected = if *pending == SubmenuOp::Help {
        SubmenuOp::Root
    } else {
        *pending
    };
    let table = keybinds();
    let mut r: Vec<Keybind> = Vec::new();
    let mut i: usize = 0;
    proof {
        reveal_with_fuel(Seq::<Keybind>::filter, 2);
        assert(keybinds_spec().take(0) =~= Seq::<Keybind>::empty());
    }
    while i < table.len()
        invariant
            i <= table@.len(),
            table@ == keybinds_spec(),
            expected == effective_scope(*pending),
            r@ == keybinds_spec().take(i as int).filter(scope_pred(effective_scope(*pending))),
        decreases table@.len() - i,
    {
        let b = table[i];
        if b.submenu == expected {
            r.push(b);
        }
        proof {
            reveal_with_fuel(Seq::<Keybind>::filter, 2);
            let pred = scope_pred(effective_scope(*pending));
            let t1 = keybinds_spec().take(i as int + 1);
            assert(t1.drop_last() =~= keybinds_spec().take(i as int));
            assert(t1.last() == keybinds_spec()[i as int]);
            assert(t1.filter(pred) == if pred(t1.last()) {
                t1.drop_last().filter(pred).push(t1.last())
            } else {
                t1.drop_last().filter(pred)
            });
        }
        i += 1;
    }
    proof {
        assert(keybinds_spec().take(keybinds_spec().len() as int) =~= keybinds_spec());
    }
    r
}

/// Table order is the tie-break authority: if the binding at `i` is live and
/// no earlier binding is, resolution returns exactly that binding's
/// operation. With no duplicate `(scope, modifiers, key)` triples in a scope,
/// this pins resolution to the one binding table order selects.
pub proof fn lemma_resolve_first_match(
    table: Seq<Keybind>,
    pending: SubmenuOp,
    mods: Modifiers,
    key: Key,
    i: int,
)
    requires
        0 <= i < table.len(),
        binding_matches(table[i], pending, mods, key),
        forall|j: int| 0 <= j < i ==> !binding_matches(table[j], pending, mods, key),
    ensures
        resolve_spec(table, pending, mods, key) == Some(table[i].op),
    decreases i,
{
    if i > 0 {
        lemma_resolve_first_match(table.drop_first(), pending, mods, key, i - 1);
    }
}

/// A key event that no binding matches resolves to nothing.
pub proof fn lemma_resolve_no_match(table: Seq<Keybind>, pending: SubmenuOp, mods: Modifiers, key: Key)
    requires
        forall|j: int| 0 <= j < table.len() ==> !binding_matches(table[j], pending, mods, key),
    ensures
        resolve_spec(table, pending, mods, key) is None,
    decreases table.len(),
{
    if table.len() > 0 {
        lemma_resolve_no_match(table.drop_first(), pending, mods, key);
    }
}

/// The visible prefix that the modifier set contributes to a key label:
/// control prepends "C-", shift contributes nothing (it is expressed only
/// through letter case).
pub open spec fn mods_prefix_spec(m: Modifiers) -> Seq<char> {
    if m.control {
        "C-"@
    } else {
        Seq::<char>::empty()
    }
}

/// The human-readable label of a key: named keys map to fixed mnemonics,
/// character keys render as themselves (uppercased under shift), and an
/// unrecognized key renders as a fixed placeholder.
pub open spec fn key_label_spec(key: Key, shift: bool) -> Seq<char> {
    match key {
        Key::Enter => "ret"@,
        Key::Left => "←"@,
        Key::Right => "→"@,
        Key::Up => "↑"@,
        Key::Down => "↓"@,
        Key::Tab => "tab"@,
        Key::Delete => "del"@,
        Key::Insert => "ins"@,
        Key::F(n) => "F"@ + decimal_spec(n as nat),
        Key::Char(c) => seq![if shift { upper_char_spec(c) } else { c }],
        Key::Esc => "esc"@,
        Key::Other => "???"@,
    }
}

/// The full label of a binding's key, modifier prefix included.
pub open spec fn format_key_spec(b: Keybind) -> Seq<char> {
    mods_prefix_spec(b.mods) + key_label_spec(b.key, b.mods.shift)
}

impl Keybind {
    /// A pure projection from a binding to the human-readable label of its
    /// key, for the hint overlay. Bindings never carry the alt modifier.
    pub fn format_key(&self) -> (r: String)
        requires
            !self.mods.alt,
        ensures
            r@ == format_key_spec(*self),
    {
        let mut s = String::new();
        if self.mods.control {
            s.append("C-");
        }
        match self.key {
            Key::Enter => s.append("ret"),
            Key::Left => s.append("←"),
            Key::Right => s.append("→"),
            Key::Up => s.append("↑"),
            Key::Down => s.append("↓"),
            Key::Tab => s.append("tab"),
            Key::Delete => s.append("del"),
            Key::Insert => s.append("ins"),
            Key::F(n) => {
                s.append("F");
                let digits = u64_to_string(n as u64);
                s.append(digits.as_str());
            },
            Key::Char(c) => {
                let shown = if self.mods.shift {
                    upper_char(c)
                } else {
                    c
                };
                push_char(&mut s, shown);
            },
            Key::Esc => s.append("esc"),
            Key::Other => s.append("???"),
        }
        proof {
            assert(s@ =~= format_key_spec(*self));
        }
        s
    }
}

} // verus!
