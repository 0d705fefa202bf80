//! Performing actions on, and reading information about, a running instance
//! of the game.
//!
//! [`GameInterface`] is the entry point: a fixed bundle of typed game
//! variables, generic over the backend that stores them. [`Provider`] is the
//! hook state machine that discovers the target process, builds the bundle,
//! and recovers automatically when the target goes away.

use crate::codec::spec_u32_from_be_bytes;
use crate::game_state::GameMode;
use crate::level::Level;
use crate::spatula::{Spatula, SPATULA_COUNT};
use vstd::prelude::*;

use self::game_var::{is_var_error, GameVar, GameVarMut, InterfaceBackend};

pub mod dolphin;
pub mod game_var;
pub mod mock;

verus! {

/// Error type for failed [`GameInterface`] actions.
#[derive(Clone, Copy, Debug, PartialEq, Eq, Structural)]
pub enum InterfaceError {
    /// The connection to the target was lost: the process exited, the
    /// region was unmapped, or the handle became invalid. Forces the hook
    /// state machine back to its unhooked state.
    Unhooked,
    /// A pointer-chain dereference left the emulated address space; the
    /// address could not be translated.
    InvalidPointer,
    /// Bytes read from memory do not form a valid value of the expected
    /// type.
    InvalidData,
    /// Discovery failed: no process with the target name is running.
    ProcessNotFound,
    /// Discovery failed: a target process exists, but the emulated memory
    /// region was not found inside it, so the game is not actually running.
    EmulationNotRunning,
    /// Discovery failed: an emulated region was found, but the program
    /// running in it is not the expected game.
    IncorrectGame,
}

/// Result type for [`GameInterface`] actions.
pub type InterfaceResult<T> = Result<T, InterfaceError>;

/// The errors that a hook attempt may report: the three discovery failures,
/// or a lost connection while validating the candidate.
pub open spec fn is_hook_error(e: InterfaceError) -> bool {
    ||| e is ProcessNotFound
    ||| e is EmulationNotRunning
    ||| e is IncorrectGame
    ||| e is Unhooked
}

/// Whether an action's result reports a lost connection.
pub open spec fn reports_unhooked<T>(r: InterfaceResult<T>) -> bool {
    r matches Err(e) && e is Unhooked
}

/// Interact with the game in an abstract way.
///
/// This struct allows accessing variables within a running instance of the
/// game, and performing actions on that instance, in a way that is generic
/// over a backend (a live emulator process, or an in-memory test double).
#[non_exhaustive]
pub struct GameInterface<F: InterfaceBackend> {
    /// True while on loading screens.
    pub is_loading: F::VarBool,
    /// Location of the [`GameState`](crate::game_state::GameState) enum.
    pub game_state: F::MutState,
    /// Location of the [`GameMode`] enum.
    pub game_mode: F::MutMode,
    /// Location of the [`GameOstrich`](crate::game_state::GameOstrich)
    /// enum. Mutating this is possible, but rarely what you want.
    pub game_ostrich: F::MutOstrich,
    /// Variables deciding the player's movement powers.
    pub powers: PowerUps<F>,
    /// Location of the identifier of the current scene. Can be converted to
    /// a [`Level`] via [`Level::from_scene_id`].
    pub scene_id: F::VarBytes4,
    /// Location of the spatula counter.
    pub spatula_count: F::MutU32,
    /// One [`Task`] per [`Spatula`].
    pub tasks: Tasks<F>,
    /// Location of the number the lab-door gate compares the spatula
    /// counter against.
    pub lab_door_cost: F::MutU32,
}

/// A collection of [`Task`]s, one per [`Spatula`], stored by the spatula's
/// dense index.
pub struct Tasks<F: InterfaceBackend> {
    /// One task per spatula, at the spatula's dense index.
    pub arr: Vec<Task<F>>,
}

/// Contains the variables for one spatula's pause-menu counter and game
/// object state.
#[non_exhaustive]
pub struct Task<F: InterfaceBackend> {
    /// The count field of the spatula's pause-menu counter. Notable values:
    /// `0` locked (question mark), `1` incomplete (silver), `2` complete
    /// (gold); other values leave an empty bubble in the menu.
    pub menu_count: F::MutI16,
    /// A bitfield of flags for the spatula's entity; the lowest bit is
    /// whether the entity is enabled. `None` for the two tasks whose
    /// spatulas have no entity.
    pub flags: Option<F::MutU8>,
    /// Another bitfield of state for the spatula's entity. `None` for the
    /// two tasks whose spatulas have no entity.
    pub state: Option<F::MutU32>,
}

/// Variables related to the player's two unlockable powers.
#[non_exhaustive]
pub struct PowerUps<F: InterfaceBackend> {
    /// Whether the bubble bowl is currently unlocked.
    pub bubble_bowl: F::MutBool,
    /// Whether the cruise bubble is currently unlocked.
    pub cruise_bubble: F::MutBool,
    /// Whether new games should begin with the bubble bowl unlocked.
    pub initial_bubble_bowl: F::MutBool,
    /// Whether new games should begin with the cruise bubble unlocked.
    pub initial_cruise_bubble: F::MutBool,
}

impl<F: InterfaceBackend> Tasks<F> {
    /// The collection is complete: it holds one task per spatula.
    pub open spec fn wf(self) -> bool {
        self.arr.len() == SPATULA_COUNT
    }

    /// The task tracked for a spatula.
    pub open spec fn spec_task(self, s: Spatula) -> Task<F>
        recommends
            self.wf(),
    {
        self.arr[s.spec_index()]
    }

    /// `other` agrees with `self` on every task except possibly `s`'s.
    pub open spec fn same_but(self, other: Tasks<F>, s: Spatula) -> bool {
        &&& other.arr.len() == self.arr.len()
        &&& forall|j: int|
            0 <= j < self.arr.len() && j != s.spec_index() ==> self.arr[j] == #[trigger] other.arr[j]
    }

    /// Shared access to the task tracked for a spatula.
    pub fn task(&self, s: Spatula) -> (r: &Task<F>)
        requires
            self.wf(),
        ensures
            *r == self.spec_task(s),
    {
        proof {
            s.lemma_index_round_trip();
        }
        &self.arr[s.as_index()]
    }
}

impl<F: InterfaceBackend> GameInterface<F> {
    /// The aggregate is complete: its task collection holds one task per
    /// spatula.
    pub open spec fn wf(self) -> bool {
        self.tasks.wf()
    }

    /// Will start a new game when called. Only works when the player is on
    /// the main menu and not in the demo cutscene.
    ///
    /// # Errors
    ///
    /// Returns an [`InterfaceError`] if the backend is unable to access the
    /// game.
    pub fn start_new_game(&mut self) -> (r: InterfaceResult<()>)
        ensures
            *final(self) == (GameInterface { game_mode: final(self).game_mode, ..*old(self) }),
            old(self).game_mode.known() is Some ==> r is Ok && final(self).game_mode.known()
                == Some(GameMode::Game),
            final(self).game_mode.known() is Some ==> final(self).game_mode.known() == Some(
                GameMode::Game,
            ),
            r matches Err(e) ==> is_var_error(e),
    {
        self.game_mode.set(GameMode::Game)
    }

    /// Get the level that the player is currently in.
    ///
    /// # Errors
    ///
    /// Returns [`InterfaceError::InvalidData`] when the scene identifier
    /// denotes no known level, which can happen while the game is loading;
    /// otherwise propagates the backend's error.
    pub fn get_current_level(&self) -> (r: InterfaceResult<Level>)
        ensures
            self.scene_id.known() matches Some(id) ==> r == (
            match Level::spec_from_code(spec_u32_from_be_bytes(id@)) {
                Some(l) => Ok::<Level, InterfaceError>(l),
                None => Err::<Level, InterfaceError>(InterfaceError::InvalidData),
            }),
            r matches Err(e) ==> is_var_error(e),
    {
        let id = match self.scene_id.get() {
            Ok(id) => id,
            Err(e) => {
                return Err(e);
            },
        };
        match Level::from_scene_id(id) {
            Some(l) => Ok(l),
            None => Err(InterfaceError::InvalidData),
        }
    }

    /// Marks a task as available (silver) in the pause menu. Does not
    /// change a task that is already complete (gold).
    ///
    /// # Errors
    ///
    /// Returns an [`InterfaceError`] if the backend is unable to access the
    /// game.
    pub fn unlock_task(&mut self, spatula: Spatula) -> (r: InterfaceResult<()>)
        requires
            old(self).wf(),
        ensures
            final(self).wf(),
            *final(self) == (GameInterface { tasks: final(self).tasks, ..*old(self) }),
            old(self).tasks.same_but(final(self).tasks, spatula),
            ({
                let t0 = old(self).tasks.spec_task(spatula);
                let t1 = final(self).tasks.spec_task(spatula);
                &&& t1 == (Task { menu_count: t1.menu_count, ..t0 })
                &&& (t0.menu_count.known() matches Some(c) ==> r is Ok
                    && t1.menu_count.known() == Some(if c == 2 { 2i16 } else { 1i16 }))
            }),
            r matches Err(e) ==> is_var_error(e),
    {
        proof {
            spatula.lemma_index_round_trip();
        }
        let i = spatula.as_index();
        let curr = match self.tasks.arr[i].menu_count.get() {
            Ok(c) => c,
            Err(e) => {
                return Err(e);
            },
        };
        if curr != 2 {
            match self.tasks.arr[i].menu_count.set(1) {
                Ok(u) => u,
                Err(e) => {
                    return Err(e);
                },
            };
        }
        Ok(())
    }

    /// Marks a task as complete (gold) in the pause menu, which also gives
    /// the player access to the task warp.
    ///
    /// # Errors
    ///
    /// Returns an [`InterfaceError`] if the backend is unable to access the
    /// game.
    pub fn mark_task_complete(&mut self, spatula: Spatula) -> (r: InterfaceResult<()>)
        requires
            old(self).wf(),
        ensures
            final(self).wf(),
            *final(self) == (GameInterface { tasks: final(self).tasks, ..*old(self) }),
            old(self).tasks.same_but(final(self).tasks, spatula),
            ({
                let t0 = old(self).tasks.spec_task(spatula);
                let t1 = final(self).tasks.spec_task(spatula);
                &&& t1 == (Task { menu_count: t1.menu_count, ..t0 })
                &&& (t0.menu_count.known() is Some ==> r is Ok && t1.menu_count.known() == Some(
                    2i16,
                ))
                &&& (t1.menu_count.known() is Some ==> t1.menu_count.known() == Some(2i16))
            }),
            r matches Err(e) ==> is_var_error(e),
    {
        proof {
            spatula.lemma_index_round_trip();
        }
        let i = spatula.as_index();
        self.tasks.arr[i].menu_count.set(2)
    }

    /// True when the spatula is shown as gold in the pause menu.
    ///
    /// # Errors
    ///
    /// Returns an [`InterfaceError`] if the backend is unable to access the
    /// game.
    pub fn is_task_complete(&self, spatula: Spatula) -> (r: InterfaceResult<bool>)
        requires
            self.wf(),
        ensures
            (self.tasks.spec_task(spatula).menu_count.known() matches Some(c) ==> r == Ok::<
                bool,
                InterfaceError,
            >(c == 2)),
            r matches Err(e) ==> is_var_error(e),
    {
        proof {
            spatula.lemma_index_round_trip();
        }
        let i = spatula.as_index();
        match self.tasks.arr[i].menu_count.get() {
            Ok(c) => Ok(c == 2),
            Err(e) => Err(e),
        }
    }

    /// Collect a spatula in the world: disables its entity and adjusts its
    /// model flags. Does not complete the task or touch the counter.
    ///
    /// Does nothing (and reports success) when `spatula` lies in a level
    /// other than `current_level`, or when the spatula has no entity.
    ///
    /// # Errors
    ///
    /// Returns an [`InterfaceError`] if the backend is unable to access the
    /// game.
    pub fn collect_spatula(&mut self, spatula: Spatula, current_level: Option<Level>) -> (r:
        InterfaceResult<()>)
        requires
            old(self).wf(),
        ensures
            final(self).wf(),
            *final(self) == (GameInterface { tasks: final(self).tasks, ..*old(self) }),
            old(self).tasks.same_but(final(self).tasks, spatula),
            !(current_level matches Some(l) && l == spatula.spec_level()) ==> *final(self) == *old(self) && r == Ok::<(), InterfaceError>(()),
            ({
                let t0 = old(self).tasks.spec_task(spatula);
                let t1 = final(self).tasks.spec_task(spatula);
                current_level matches Some(l) && l == spatula.spec_level() ==> {
                    &&& t1.menu_count == t0.menu_count
                    &&& (t0.flags is None || t0.state is None) ==> *final(self) == *old(self) && r
                        == Ok::<(), InterfaceError>(())
                    &&& t0.flags matches Some(fv0) ==> t0.state matches Some(sv0)
                        ==> fv0.known() matches Some(f) ==> sv0.known() matches Some(st) ==> r is Ok
                        && (t1.flags matches Some(fv1) && fv1.known() == Some((f & !1u8) as u8))
                        && (t1.state matches Some(sv1) && sv1.known() == Some(
                        (((st | 8u32) & !4u32) & !2u32) as u32,
                    ))
                }
            }),
            r matches Err(e) ==> is_var_error(e),
    {
        proof {
            spatula.lemma_index_round_trip();
        }
        let in_level = match current_level {
            Some(l) => l == spatula.get_level(),
            None => false,
        };
        if !in_level {
            return Ok(());
        }
        let i = spatula.as_index();
        if self.tasks.arr[i].flags.is_none() || self.tasks.arr[i].state.is_none() {
            return Ok(());
        }
        let mut flags = self.tasks.arr[i].flags.take().unwrap();
        let mut state = self.tasks.arr[i].state.take().unwrap();

        let f = match flags.get() {
            Ok(v) => v,
            Err(e) => {
                self.tasks.arr[i].flags = Some(flags);
                self.tasks.arr[i].state = Some(state);
                return Err(e);
            },
        };
        let st = match state.get() {
            Ok(v) => v,
            Err(e) => {
                self.tasks.arr[i].flags = Some(flags);
                self.tasks.arr[i].state = Some(state);
                return Err(e);
            },
        };

        // Disable the entity, then set some model flags.
        let new_flags: u8 = f & !1u8;
        let new_state: u32 = ((st | 8u32) & !4u32) & !2u32;

        let r1 = flags.set(new_flags);
        let r2 = state.set(new_state);
        self.tasks.arr[i].flags = Some(flags);
        self.tasks.arr[i].state = Some(state);
        match r1 {
            Ok(u) => u,
            Err(e) => {
                return Err(e);
            },
        };
        match r2 {
            Ok(u) => u,
            Err(e) => {
                return Err(e);
            },
        };
        Ok(())
    }

    /// True when the spatula's collected animation is playing.
    ///
    /// Always `Ok(false)` when `spatula` lies in a level other than
    /// `current_level`, or when the spatula has no entity.
    ///
    /// # Errors
    ///
    /// Returns an [`InterfaceError`] if the backend is unable to access the
    /// game.
    pub fn is_spatula_being_collected(&self, spatula: Spatula, current_level: Option<Level>) -> (r:
        InterfaceResult<bool>)
        requires
            self.wf(),
        ensures
            !(current_level matches Some(l) && l == spatula.spec_level()) ==> r == Ok::<
                bool,
                InterfaceError,
            >(false),
            ({
                let t = self.tasks.spec_task(spatula);
                current_level matches Some(l) && l == spatula.spec_level() ==> {
                    &&& t.state is None ==> r == Ok::<bool, InterfaceError>(false)
                    &&& t.state matches Some(sv) ==> sv.known() matches Some(st) ==> r == Ok::<
                        bool,
                        InterfaceError,
                    >((st & 4u32) != 0)
                }
            }),
            r matches Err(e) ==> is_var_error(e),
    {
        proof {
            spatula.lemma_index_round_trip();
        }
        let in_level = match current_level {
            Some(l) => l == spatula.get_level(),
            None => false,
        };
        if !in_level {
            return Ok(false);
        }
        let i = spatula.as_index();
        match &self.tasks.arr[i].state {
            Some(sv) => match sv.get() {
                Ok(st) => Ok((st & 4u32) != 0),
                Err(e) => Err(e),
            },
            None => Ok(false),
        }
    }

    /// Changes the number of spatulas required to open the lab door.
    ///
    /// Requires that the current level is the one holding the door, and
    /// therefore reports success without doing anything when
    /// `current_level` says otherwise. The game uses a greater-than check,
    /// so the stored number is one less than `value`.
    ///
    /// # Errors
    ///
    /// Returns an [`InterfaceError`] if the backend is unable to access the
    /// game.
    pub fn set_lab_door(&mut self, value: u32, current_level: Option<Level>) -> (r: InterfaceResult<
        (),
    >)
        requires
            (current_level matches Some(l) && l == Level::ChumBucket) ==> value >= 1,
        ensures
            *final(self) == (GameInterface { lab_door_cost: final(self).lab_door_cost, ..*old(self) }),
            !(current_level matches Some(l) && l == Level::ChumBucket) ==> *final(self) == *old(self)
                && r == Ok::<(), InterfaceError>(()),
            (current_level matches Some(l) && l == Level::ChumBucket) ==> {
                &&& (old(self).lab_door_cost.known() is Some ==> r is Ok && final(self).lab_door_cost.known() == Some((value - 1) as u32))
                &&& (final(self).lab_door_cost.known() is Some ==> final(self).lab_door_cost.known()
                    == Some((value - 1) as u32))
            },
            r matches Err(e) ==> is_var_error(e),
    {
        let in_level = match current_level {
            Some(l) => l == Level::ChumBucket,
            None => false,
        };
        if !in_level {
            return Ok(());
        }
        // The game uses a greater-than check, so subtract one.
        let cost = value - 1;
        match self.lab_door_cost.set(cost) {
            Ok(u) => u,
            Err(e) => {
                return Err(e);
            },
        };
        Ok(())
    }
}

impl<F: InterfaceBackend> PowerUps<F> {
    /// Set whether a new game should start with the two powers unlocked.
    ///
    /// # Errors
    ///
    /// Returns an [`InterfaceError`] if the backend is unable to access the
    /// game.
    pub fn start_with_powers(&mut self, value: bool) -> (r: InterfaceResult<()>)
        ensures
            *final(self) == (PowerUps {
                initial_bubble_bowl: final(self).initial_bubble_bowl,
                initial_cruise_bubble: final(self).initial_cruise_bubble,
                ..*old(self)
            }),
            (old(self).initial_bubble_bowl.known() is Some && old(self).initial_cruise_bubble.known() is Some) ==> r is Ok && final(self).initial_bubble_bowl.known() == Some(value) && final(self).initial_cruise_bubble.known() == Some(value),
            r matches Err(e) ==> is_var_error(e),
    {
        match self.initial_bubble_bowl.set(value) {
            Ok(u) => u,
            Err(e) => {
                return Err(e);
            },
        };
        self.initial_cruise_bubble.set(value)
    }

    /// Unlock both powers for the current game.
    ///
    /// # Errors
    ///
    /// Returns an [`InterfaceError`] if the backend is unable to access the
    /// game.
    pub fn unlock_powers(&mut self) -> (r: InterfaceResult<()>)
        ensures
            *final(self) == (PowerUps {
                bubble_bowl: final(self).bubble_bowl,
                cruise_bubble: final(self).cruise_bubble,
                ..*old(self)
            }),
            (old(self).bubble_bowl.known() is Some && old(self).cruise_bubble.known() is Some)
                ==> r is Ok && final(self).bubble_bowl.known() == Some(true) && final(self).cruise_bubble.known() == Some(true),
            r matches Err(e) ==> is_var_error(e),
    {
        match self.bubble_bowl.set(true) {
            Ok(u) => u,
            Err(e) => {
                return Err(e);
            },
        };
        self.cruise_bubble.set(true)
    }
}

/// One attempt at discovering the target and building the aggregate; the
/// swappable, platform-specific half of the hook state machine.
pub trait Hooker: Sized {
    /// The variable family the built aggregate uses.
    type Backend: InterfaceBackend;

    /// Attempt to discover the target and build an aggregate bound to it.
    fn try_hook(&mut self) -> (r: InterfaceResult<GameInterface<Self::Backend>>)
        ensures
            r matches Ok(i) ==> i.wf(),
            r matches Err(e) ==> is_hook_error(e),
    ;
}

/// The hook state machine: either unhooked, or hooked with a live
/// aggregate. Hooks on first use, runs caller logic against the aggregate,
/// and unhooks itself when the logic reports a lost connection, so that the
/// next call re-discovers instead of reusing a stale handle.
pub struct Provider<H: Hooker> {
    hooker: H,
    state: Option<GameInterface<H::Backend>>,
}

impl<H: Hooker> Provider<H> {
    /// Any aggregate the provider holds is complete.
    pub closed spec fn wf(self) -> bool {
        self.state matches Some(i) ==> i.wf()
    }

    /// Whether the provider currently holds an aggregate.
    pub closed spec fn hooked(self) -> bool {
        self.state is Some
    }

    /// The aggregate the provider holds.
    pub closed spec fn interface(self) -> GameInterface<H::Backend>
        recommends
            self.hooked(),
    {
        self.state->0
    }

    /// A fresh, unhooked provider around a discovery backend.
    pub fn new(hooker: H) -> (r: Self)
        ensures
            !r.hooked(),
            r.wf(),
    {
        Provider { hooker, state: None }
    }

    /// Ensure the provider is hooked (hooking if necessary), run the given
    /// caller logic on the aggregate, and unhook when the logic reports a
    /// lost connection, so the next call re-discovers.
    ///
    /// # Errors
    ///
    /// Returns the discovery error when hooking fails, otherwise whatever
    /// the caller logic returns.
    pub fn do_with_interface<T, F: FnOnce(&mut GameInterface<H::Backend>) -> InterfaceResult<T>>(
        &mut self,
        fun: F,
    ) -> (r: InterfaceResult<T>)
        requires
            old(self).wf(),
            forall|g: &mut GameInterface<H::Backend>| g.wf() ==> call_requires(fun, (g,)),
            forall|g: &mut GameInterface<H::Backend>, t: InterfaceResult<T>|
                g.wf() && #[trigger] call_ensures(fun, (g,), t) ==> final(g).wf(),
        ensures
            final(self).wf(),
            r is Ok ==> final(self).hooked(),
            reports_unhooked(r) ==> !final(self).hooked(),
            old(self).hooked() ==> exists|g: &mut GameInterface<H::Backend>|
                *g == old(self).interface() && #[trigger] call_ensures(fun, (g,), r) && (
                !reports_unhooked(r) ==> final(self).hooked() && final(self).interface() == *final(g)),
            !old(self).hooked() ==> ((r matches Err(e) && is_hook_error(e) && !final(self).hooked())
                || (exists|g: &mut GameInterface<H::Backend>|
                g.wf() && #[trigger] call_ensures(fun, (g,), r) && (!reports_unhooked(r) ==> final(self).hooked() && final(self).interface() == *final(g)))),
    {
        if self.state.is_none() {
            match self.hooker.try_hook() {
                Ok(i) => {
                    self.state = Some(i);
                },
                Err(e) => {
                    return Err(e);
                },
            }
        }
        let mut iface = self.state.take().unwrap();
        let r = fun(&mut iface);
        let keep = match &r {
            Err(InterfaceError::Unhooked) => false,
            _ => true,
        };
        if keep {
            self.state = Some(iface);
        }
        r
    }

    /// True when the provider is hooked, hooking first if necessary.
    pub fn is_available(&mut self) -> (r: bool)
        requires
            old(self).wf(),
        ensures
            final(self).wf(),
            r == final(self).hooked(),
    {
        if self.state.is_some() {
            return true;
        }
        match self.hooker.try_hook() {
            Ok(i) => {
                self.state = Some(i);
                true
            },
            Err(_) => false,
        }
    }
}

} // verus!
