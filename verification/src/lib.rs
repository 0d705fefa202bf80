//! Tools for reading and mutating the live memory of *Battle for Bikini
//! Bottom* as it runs inside the Dolphin GameCube emulator.
//!
//! The crate is organised around a typed, backend-agnostic "game variable"
//! abstraction: a [`game_interface::GameInterface`] bundles one handle per
//! variable of interest, each handle resolves a pointer chain through the
//! emulated address space, corrects byte order, and validates raw bytes
//! before exposing a typed value.

pub mod codec;
pub mod endian;
pub mod game_interface;
pub mod game_state;
mod level;
mod room;
mod spatula;

pub use level::Level;
pub use room::Room;
pub use spatula::Spatula;
pub use spatula::SPATULA_COUNT;
