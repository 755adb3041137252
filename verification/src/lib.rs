//! Lock-free telemetry state shared between a game's event hooks and the loop
//! that publishes it, one snapshot per line, to a connected peer.
//!
//! - [`utf16`], [`buffer`] and [`words`] turn a text into the four words of a
//!   name cell and back; each step is specified and proved.
//! - [`atomic_name`] is the cell itself, [`table`] the table built from such
//!   cells and from plain atomics.
//! - [`game`] holds the rules by which readings from the game become fields.
//! - [`server`] decides what the publishing loop does next.

pub mod utf16;
pub mod buffer;
pub mod words;
pub mod atomic_name;
pub mod game;
pub mod table;
pub mod server;

pub use atomic_name::AtomicName;
pub use table::{Info, InfoSnapshot, Player, PlayerSnapshot, PlayerState, MAX_PLAYERS};
