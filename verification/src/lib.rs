//! A deterministic command engine for a shared game state.
//!
//! An instruction is four 64-bit words. Its first word names a command and carries the
//! nonce that guards the invoking identity against replay; the other words name an
//! object, a position or another identity. [`game::handle_command`] checks one
//! instruction against the [`registry::Registry`] of player records and says, as an
//! [`outcome::Outcome`], which single change the host is to make to the game state.
//! Nothing here reads a clock, draws a random number or touches a file: the same
//! instructions in the same order always come to the same outcomes.

pub mod bigint;
pub mod game;
pub mod gate;
pub mod instruction;
pub mod laws;
pub mod object_id;
pub mod outcome;
pub mod player;
pub mod registry;

pub use game::{handle_command, State, Transaction, UserState};
pub use outcome::{Action, Outcome, Rejection};
pub use player::Player;
pub use registry::Registry;
