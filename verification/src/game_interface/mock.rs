//! A mock backend for [`GameInterface`](super::GameInterface): an in-memory
//! test double whose variables always succeed and always hold a known value,
//! so logic can be exercised against an arranged state.

use crate::codec::GameValue;
use crate::game_interface::game_var::{GameVar, GameVarMut, InterfaceBackend};
use crate::game_interface::{GameInterface, InterfaceResult, PowerUps, Task, Tasks};
use crate::game_state::{GameMode, GameOstrich, GameState};
use crate::level::Level;
use crate::spatula::SPATULA_COUNT;
use vstd::prelude::*;

verus! {

/// A mock implementation of [`InterfaceBackend`].
pub struct MockBackend;

/// A mock implementation of [`GameVar`] and [`GameVarMut`]: the variable
/// holds its value directly, every access succeeds, and the value is always
/// known.
pub struct MockVar<T: GameValue> {
    /// The mocked value. Accessing it directly allows arranging a scenario
    /// for a test, including mutating variables that are normally
    /// read-only.
    pub value: T,
}

impl<T: GameValue> MockVar<T> {
    /// A variable holding `value`.
    pub fn new(value: T) -> (r: Self)
        ensures
            r.value == value,
    {
        MockVar { value }
    }
}

impl<T: GameValue> GameVar<T> for MockVar<T> {
    open spec fn known(&self) -> Option<T> {
        Some(self.value)
    }

    fn get(&self) -> (r: InterfaceResult<T>) {
        Ok(self.value)
    }
}

impl<T: GameValue> GameVarMut<T> for MockVar<T> {
    fn set(&mut self, value: T) -> (r: InterfaceResult<()>) {
        self.value = value;
        Ok(())
    }
}

impl InterfaceBackend for MockBackend {
    type VarBool = MockVar<bool>;

    type VarBytes4 = MockVar<[u8; 4]>;

    type MutBool = MockVar<bool>;

    type MutU8 = MockVar<u8>;

    type MutI16 = MockVar<i16>;

    type MutU32 = MockVar<u32>;

    type MutMode = MockVar<GameMode>;

    type MutState = MockVar<GameState>;

    type MutOstrich = MockVar<GameOstrich>;
}

/// The task state every mock interface starts from: a locked counter and
/// zeroed entity bitfields.
pub open spec fn initial_mock_task() -> Task<MockBackend> {
    Task {
        menu_count: MockVar { value: 0i16 },
        flags: Some(MockVar { value: 0u8 }),
        state: Some(MockVar { value: 0u32 }),
    }
}

impl Tasks<MockBackend> {
    /// A complete collection with every task in the initial state.
    pub fn new() -> (r: Self)
        ensures
            r.wf(),
            forall|j: int| 0 <= j < SPATULA_COUNT ==> #[trigger] r.arr@[j] == initial_mock_task(),
    {
        let mut arr: Vec<Task<MockBackend>> = Vec::new();
        while arr.len() < SPATULA_COUNT
            invariant
                arr.len() <= SPATULA_COUNT,
                forall|j: int| 0 <= j < arr.len() ==> #[trigger] arr@[j] == initial_mock_task(),
            decreases SPATULA_COUNT - arr.len(),
        {
            arr.push(
                Task {
                    menu_count: MockVar::new(0),
                    flags: Some(MockVar::new(0)),
                    state: Some(MockVar::new(0)),
                },
            );
        }
        Tasks { arr }
    }
}

impl PowerUps<MockBackend> {
    /// Power variables with both powers locked, now and for new games.
    pub fn new() -> (r: Self)
        ensures
            r == (PowerUps::<MockBackend> {
                bubble_bowl: MockVar { value: false },
                cruise_bubble: MockVar { value: false },
                initial_bubble_bowl: MockVar { value: false },
                initial_cruise_bubble: MockVar { value: false },
            }),
    {
        PowerUps {
            bubble_bowl: MockVar::new(false),
            cruise_bubble: MockVar::new(false),
            initial_bubble_bowl: MockVar::new(false),
            initial_cruise_bubble: MockVar::new(false),
        }
    }
}

impl Default for GameInterface<MockBackend> {
    /// An in-memory interface describing an ordinary moment of play: not
    /// loading, in a scene, no spatulas collected, and the player at home.
    fn default() -> (r: Self)
        ensures
            r.wf(),
            r.is_loading.value == false,
            r.game_state.value == GameState::Play,
            r.game_mode.value == GameMode::Game,
            r.game_ostrich.value == GameOstrich::InScene,
            r.powers == (PowerUps::<MockBackend> {
                bubble_bowl: MockVar { value: false },
                cruise_bubble: MockVar { value: false },
                initial_bubble_bowl: MockVar { value: false },
                initial_cruise_bubble: MockVar { value: false },
            }),
            r.scene_id.value@ == Level::SpongebobHouse.spec_scene_id(),
            r.spatula_count.value == 0u32,
            r.lab_door_cost.value == 74u32,
            forall|j: int| 0 <= j < SPATULA_COUNT ==> #[trigger] r.tasks.arr@[j]
                == initial_mock_task(),
    {
        GameInterface {
            is_loading: MockVar::new(false),
            game_state: MockVar::new(GameState::Play),
            game_mode: MockVar::new(GameMode::Game),
            game_ostrich: MockVar::new(GameOstrich::InScene),
            powers: PowerUps::<MockBackend>::new(),
            scene_id: MockVar::new(Level::SpongebobHouse.scene_id()),
            spatula_count: MockVar::new(0),
            tasks: Tasks::<MockBackend>::new(),
            lab_door_cost: MockVar::new(74),
        }
    }
}

/// Provider of a [`GameInterface<MockBackend>`]: there is no hooking
/// behaviour to abstract away, so caller logic simply runs against the owned
/// in-memory interface, which is always available.
pub struct MockInterface {
    /// The in-memory interface the provider owns.
    pub interface: GameInterface<MockBackend>,
}

impl Default for MockInterface {
    /// A provider around the default in-memory interface.
    fn default() -> (r: Self)
        ensures
            r.interface.wf(),
            r.interface.spatula_count.value == 0u32,
            forall|j: int| 0 <= j < SPATULA_COUNT ==> #[trigger] r.interface.tasks.arr@[j]
                == initial_mock_task(),
    {
        MockInterface { interface: GameInterface::default() }
    }
}

impl MockInterface {
    /// Run caller logic against the in-memory interface; no hooking is
    /// needed, and connectivity failures reported by the logic change no
    /// state.
    pub fn do_with_interface<T, F: FnOnce(&mut GameInterface<MockBackend>) -> InterfaceResult<T>>(
        &mut self,
        fun: F,
    ) -> (r: InterfaceResult<T>)
        requires
            old(self).interface.wf(),
            forall|g: &mut GameInterface<MockBackend>| g.wf() ==> call_requires(fun, (g,)),
            forall|g: &mut GameInterface<MockBackend>, t: InterfaceResult<T>|
                g.wf() && #[trigger] call_ensures(fun, (g,), t) ==> final(g).wf(),
        ensures
            final(self).interface.wf(),
            exists|g: &mut GameInterface<MockBackend>|
                *g == old(self).interface && *final(g) == final(self).interface
                    && #[trigger] call_ensures(fun, (g,), r),
    {
        fun(&mut self.interface)
    }

    /// The in-memory interface is always available.
    pub fn is_available(&mut self) -> (r: bool)
        ensures
            *final(self) == *old(self),
            r == true,
    {
        true
    }
}

} // verus!
