//! Core of an interactive terminal dashboard for a version-controlled
//! repository: a modal key-dispatch state machine and a flat, depth-tagged,
//! collapsible item tree with selection, plus the builders that turn
//! repository facts into display rows.

pub mod bindings;
pub mod items;
pub mod keys;
pub mod ops;
pub mod screen;
pub mod status;
pub mod strfmt;

use vstd::prelude::*;

verus! {

} // verus!
