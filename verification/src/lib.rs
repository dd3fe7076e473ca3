//! Frame-exact rules of a two-player fighting game.
//!
//! The library holds everything about a match that is counted in whole
//! frames: the fighter state machine, the input buffer with its combo
//! detector, the choice of what a fighter does with its input, the reaction
//! to a hit, and the progress of rounds and match. Positions, velocities,
//! health and stamina are measured by the host, which hands in what it has
//! read off them and carries out what the rules decide.
//!
//! A host drives one frame of a match like this:
//!
//! 1. `GameState::tick` with both inputs and the facts about both fighters.
//!    Outside the fight that is the whole frame.
//! 2. In the fight the call returns the orders for both fighters. The host
//!    moves the bodies and charges the stamina as ordered.
//! 3. `GameState::threat` says for each fighter whether it has an attack to
//!    land. The host tests each hitbox against the other fighter's hurtbox
//!    and hands what the hits are worth to `GameState::check_combat`, which
//!    resolves them in order and says which of them landed. The host takes off
//!    the damage of those.
//! 4. The host integrates both bodies and calls `GameState::finish_frame`
//!    with the landings and the state of the health bars.

pub mod combat;
pub mod fighter;
pub mod game;
pub mod input;
pub mod snapshot;
pub mod state_machine;
pub mod types;
pub mod weapon;
