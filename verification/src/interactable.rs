//! Interactable bodies and the resolution of a release over them.
//!
//! When the hand lets go of a held body, the release is resolved against
//! every interactable body the physics world reports as overlapping the
//! held one: a machine takes the item in, everything else ignores it.

use vstd::prelude::*;

verus! {

/// How a body reacts to the hand: the reaction kind of an interactable.
#[derive(Debug)]
pub enum InteractionType {
    /// A body that does not react at all.
    NoAction,
    /// A loose item that can be picked up.
    Item,
    /// A character that can be talked to.
    Talk,
    /// A pressable trigger; the message it fires is held by the engine
    /// shell.
    Button,
    /// A character that wants an item of the given name brought to it.
    /// What it hands out in return is settled by the engine shell.
    Quest { wants: String },
    /// A crafting machine that takes dropped-in items.
    Machine,
}

/// Marker carried by every body the release resolver considers.
#[derive(Debug)]
pub struct Interactable {
    pub interaction_type: InteractionType,
}

/// What the release of a held body does to one nearby interactable.
#[derive(Debug, Clone, Copy, PartialEq, Eq, Structural)]
pub enum ReleaseAction {
    /// This target is left alone.
    Ignore,
    /// The held item is offered to the target machine.
    InsertIntoMachine,
}

/// Resolves the release of the held body against one interactable
/// target: the held body is offered to the target exactly when the
/// target is a machine other than the held body itself, the two overlap,
/// and the held body is an item.
pub fn release_action(
    held_entity: u64,
    held_is_item: bool,
    target_entity: u64,
    kind: &InteractionType,
    overlapping: bool,
) -> (r: ReleaseAction)
    ensures
        r == ReleaseAction::InsertIntoMachine <==> (target_entity != held_entity && overlapping
            && kind is Machine && held_is_item),
{
    if target_entity != held_entity && overlapping && matches!(kind, InteractionType::Machine)
        && held_is_item {
        ReleaseAction::InsertIntoMachine
    } else {
        ReleaseAction::Ignore
    }
}

} // verus!
