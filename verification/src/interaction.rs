//! Scripted interactions: what interacting with an entity publishes.

use vstd::prelude::*;

use crate::messages::GameMessage;

verus! {

/// What interacting with an entity does.
#[derive(Debug)]
pub enum InteractionAction {
    /// Switch to the scene of the given name.
    GoToScene(String),
    /// Hand the entity's item over.
    PickUpItem,
    /// Start a conversation with the named character.
    TalkToNPC(String),
}

/// What must have happened before an interaction unlocks.
#[derive(Debug)]
pub enum ConditionType {
    NeedsItem,
    TalkedToNPC(String),
}

/// A gate on an interaction: its kind, and whether it is already met.
#[derive(Debug)]
pub struct Condition {
    pub fullfilled: bool,
    pub condition_type: ConditionType,
}

/// A scripted interaction: a description, what it does, and an optional
/// gate.
#[derive(Debug)]
pub struct Interactive {
    pub description: String,
    pub action: InteractionAction,
    pub condition: Option<Condition>,
}

impl Interactive {
    /// The message this interaction publishes: a scene change or a
    /// conversation; picking an item up publishes nothing.
    pub fn message(&self) -> (r: Option<GameMessage>)
        ensures
            r == match self.action {
                InteractionAction::GoToScene(scene) => Some(GameMessage::ChangeScene(scene)),
                InteractionAction::PickUpItem => None::<GameMessage>,
                InteractionAction::TalkToNPC(npc) => Some(GameMessage::TalkToNPC(npc)),
            },
    {
        match &self.action {
            InteractionAction::GoToScene(scene) => Some(GameMessage::ChangeScene(scene.clone())),
            InteractionAction::PickUpItem => None,
            InteractionAction::TalkToNPC(npc) => Some(GameMessage::TalkToNPC(npc.clone())),
        }
    }
}

} // verus!
