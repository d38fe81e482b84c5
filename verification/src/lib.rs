//! Logic core of a small 2D grab-and-place game.
//!
//! The engine-facing shell (rendering, physics, input, the per-frame
//! scheduler) lives outside this crate; what lives here is everything the
//! game actually decides: which body a grab picks up, what a release does
//! to a machine, how recipe lookup matches ingredient sets, how the room
//! grid gates movement and camera framing, and how game-wide messages move
//! the session state machine.

pub mod camera;
pub mod game_states;
pub mod hand;
pub mod interactable;
pub mod interaction;
pub mod items;
pub mod machine;
pub mod message;
pub mod message_handlers;
pub mod messages;
pub mod names;
pub mod npc;
pub mod polygon_utils;
pub mod recipes;
pub mod resources;
pub mod rooms;
pub mod spawner;
pub mod states;
