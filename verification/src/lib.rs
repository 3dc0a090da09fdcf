//! Core rules of a small tile-overworld, turn-based-combat game:
//! combat stats and damage resolution, the combat state machine,
//! experience and leveling, the stochastic encounter trigger, and the
//! top-level session controller that switches between the start menu,
//! the overworld and combat.
//!
//! Presentation (rendering, audio, input devices, window plumbing) is
//! left to the surrounding program; this crate holds the rules and
//! proves their invariants.

pub mod combat;
pub mod player;
mod rng;
pub mod session;

pub use combat::CombatStats;
pub use player::Player;
pub use session::{GameSession, GameState};
