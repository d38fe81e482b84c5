//! Non-player characters.

use vstd::prelude::*;

verus! {

/// A character in the world, carrying its name.  What it hands out when
/// its quest completes is settled by the engine shell.
#[derive(Debug, Clone, PartialEq)]
pub struct NPC {
    pub name: String,
}

} // verus!
