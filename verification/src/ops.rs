//! The closed set of operations a key event can resolve to, the menu
//! contexts, and the target-shaped operation kinds.

use vstd::prelude::*;

verus! {

/// A menu context: the root (neutral) context, a wildcard matching in every
/// context, the help overlay, and one context per submenu family.
#[derive(Clone, Copy, Debug, PartialEq, Eq, Structural)]
pub enum SubmenuOp {
    Any,
    Branch,
    Commit,
    Discard,
    Fetch,
    Help,
    Log,
    Root,
    Pull,
    Push,
    Rebase,
    Reset,
}

/// An operation that must be resolved against the currently selected row.
#[derive(Clone, Copy, Debug, PartialEq, Eq, Structural)]
pub enum TargetOp {
    Checkout,
    CommitFixup,
    Discard,
    LogOther,
    RebaseAutosquash,
    RebaseInteractive,
    ResetSoft,
    ResetMixed,
    ResetHard,
    Show,
    Stage,
    Unstage,
}

/// What a key event resolves to.
#[derive(Clone, Copy, Debug, PartialEq, Eq, Structural)]
pub enum Op {
    CheckoutNewBranch,
    Commit,
    CommitAmend,
    FetchAll,
    HalfPageDown,
    HalfPageUp,
    LogCurrent,
    Pull,
    Push,
    Quit,
    RebaseAbort,
    RebaseContinue,
    Refresh,
    SelectNext,
    SelectPrevious,
    ShowRefs,
    Submenu(SubmenuOp),
    Target(TargetOp),
    ToggleSection,
}

/// Menus are one-shot: executing any operation other than entering a submenu
/// pops the active context back to the root.
pub fn next_menu(op: Op) -> (r: SubmenuOp)
    ensures
        r == next_menu_spec(op),
{
    match op {
        Op::Submenu(m) => m,
        _ => SubmenuOp::Root,
    }
}

/// The menu context that is active after an operation has been executed.
pub open spec fn next_menu_spec(op: Op) -> SubmenuOp {
    match op {
        Op::Submenu(m) => m,
        _ => SubmenuOp::Root,
    }
}

} // verus!
