//! Messages the game-level systems publish to one another.

use vstd::prelude::*;

verus! {

/// A game-level message.  The engine shell carries these over its own
/// message bus.
#[derive(Debug, Clone, PartialEq)]
pub enum GameMessage {
    /// Switch to the scene of the given name.
    ChangeScene(String),
    /// The item body with the given entity id and name was picked up.
    PickUpItem { entity: u64, name: String },
    /// Start a conversation with the named character.
    TalkToNPC(String),
}

} // verus!
