//! The screens of the client.

use vstd::prelude::*;

verus! {

/// The screen that is shown and that receives navigation and action keys.
#[derive(Debug, Clone, Copy, PartialEq, Eq, Structural)]
pub enum View {
    History,
    Files,
    Branches,
}

} // verus!
