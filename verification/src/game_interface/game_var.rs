//! Traits necessary to implement or use a
//! [`GameInterface`](super::GameInterface) backend.
//!
//! A backend supplies one concrete variable type per value type; calling
//! code that is generic over [`InterfaceBackend`] runs unmodified against a
//! live emulator process or an in-memory test double.

use crate::codec::GameValue;
use crate::game_interface::{InterfaceError, InterfaceResult};
use crate::game_state::{GameMode, GameOstrich, GameState};
use vstd::prelude::*;

verus! {

/// The errors a variable access may surface: a lost connection, a failed
/// pointer-chain translation, or an invalid bit pattern. Discovery errors
/// arise only while hooking, never from a variable access.
pub open spec fn is_var_error(e: InterfaceError) -> bool {
    ||| e is Unhooked
    ||| e is InvalidPointer
    ||| e is InvalidData
}

/// Allows accessing the value of a variable within the game.
pub trait GameVar<T: GameValue>: Sized {
    /// The value this variable is known in advance to hold, where the
    /// backend tracks one. A live-process backend knows none: the target's
    /// memory can change under it at any time.
    spec fn known(&self) -> Option<T>;

    /// Attempt to get the value of this variable.
    fn get(&self) -> (r: InterfaceResult<T>)
        ensures
            self.known() matches Some(v) ==> r == Ok::<T, InterfaceError>(v),
            r matches Err(e) ==> is_var_error(e),
    ;
}

/// Allows mutating a variable within the game.
pub trait GameVarMut<T: GameValue>: GameVar<T> {
    /// Attempt to set the value of this variable.
    ///
    /// Together with [`GameVar::get`]'s contract this gives the round-trip
    /// law: on a backend that knows its values, a successful `set` of `v`
    /// followed by `get` returns exactly `v`.
    fn set(&mut self, value: T) -> (r: InterfaceResult<()>)
        ensures
            old(self).known() is Some ==> r is Ok && final(self).known() == Some(value),
            final(self).known() is Some ==> final(self).known() == Some(value),
            r matches Err(e) ==> is_var_error(e),
    ;
}

/// A family of game-variable type constructors, one per value type that the
/// interface tracks; `Var` types are read-only, `Mut` types also allow
/// writing. Backends are marker types implementing this trait, and every
/// member of one family must report the same error taxonomy.
pub trait InterfaceBackend {
    /// Read-only boolean variable.
    type VarBool: GameVar<bool>;

    /// Read-only four-byte scene-identifier variable.
    type VarBytes4: GameVar<[u8; 4]>;

    /// Mutable boolean variable.
    type MutBool: GameVarMut<bool>;

    /// Mutable single-byte variable.
    type MutU8: GameVarMut<u8>;

    /// Mutable 16-bit signed counter variable.
    type MutI16: GameVarMut<i16>;

    /// Mutable 32-bit unsigned counter variable.
    type MutU32: GameVarMut<u32>;

    /// Mutable [`GameMode`] variable.
    type MutMode: GameVarMut<GameMode>;

    /// Mutable [`GameState`] variable.
    type MutState: GameVarMut<GameState>;

    /// Mutable [`GameOstrich`] variable.
    type MutOstrich: GameVarMut<GameOstrich>;
}

} // verus!
