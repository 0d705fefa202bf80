//! The Dolphin implementation of the variable family: each variable reads
//! and writes one value through a pointer chain in the emulated console's
//! address space.

use super::data_member::{CheckedMemory, DataMember};
use crate::codec::GameValue;
use crate::game_interface::game_var::{GameVar, GameVarMut, InterfaceBackend};
use crate::game_interface::{GameInterface, InterfaceResult, PowerUps, Task, Tasks};
use crate::spatula::{Spatula, SPATULA_COUNT};
use vstd::prelude::*;

verus! {

/// The Dolphin implementation of [`InterfaceBackend`].
pub struct DolphinBackend;

/// The Dolphin implementation of [`GameVar`] and [`GameVarMut`].
pub struct DolphinVar<T: GameValue> {
    ptr: DataMember<T>,
}

impl<T: GameValue> DolphinVar<T> {
    /// The pointer chain this variable reads through.
    pub closed spec fn spec_chain(self) -> Seq<usize> {
        self.ptr.spec_offsets()
    }

    /// The host address at which the emulated region begins.
    pub closed spec fn spec_region_base(self) -> usize {
        self.ptr.spec_region_base()
    }

    /// The variable's chain is non-empty.
    pub open spec fn wf(self) -> bool {
        self.spec_chain().len() >= 1
    }

    /// Create a new variable given a location in the game's memory space.
    ///
    /// This is an escape hatch for accessing variables the crate does not
    /// model. Since it takes an arbitrary pointer chain and the emulated
    /// memory is ordinary memory of the emulator's host process, it can
    /// technically reach more than game data.
    pub fn new(addr: Vec<usize>, base_addr: usize, handle: process_memory::ProcessHandle) -> (r:
        Self)
        requires
            addr@.len() >= 1,
        ensures
            r.wf(),
            r.spec_chain() == addr@,
            r.spec_region_base() == base_addr,
    {
        DolphinVar { ptr: DataMember::new_offset(handle, base_addr, addr) }
    }
}

impl<T: GameValue> GameVar<T> for DolphinVar<T> {
    /// A live process's memory can change at any time: no value is known in
    /// advance.
    open spec fn known(&self) -> Option<T> {
        None
    }

    fn get(&self) -> (r: InterfaceResult<T>) {
        let (read, _witness) = self.ptr.checked_read();
        match read {
            Ok(v) => Ok(v),
            Err(e) => Err(e.to_interface_error()),
        }
    }
}

impl<T: GameValue> GameVarMut<T> for DolphinVar<T> {
    fn set(&mut self, value: T) -> (r: InterfaceResult<()>) {
        let (written, _witness) = self.ptr.write(&value);
        match written {
            Ok(u) => Ok(u),
            Err(e) => Err(e.to_interface_error()),
        }
    }
}

impl InterfaceBackend for DolphinBackend {
    type VarBool = DolphinVar<bool>;

    type VarBytes4 = DolphinVar<[u8; 4]>;

    type MutBool = DolphinVar<bool>;

    type MutU8 = DolphinVar<u8>;

    type MutI16 = DolphinVar<i16>;

    type MutU32 = DolphinVar<u32>;

    type MutMode = DolphinVar<crate::game_state::GameMode>;

    type MutState = DolphinVar<crate::game_state::GameState>;

    type MutOstrich = DolphinVar<crate::game_state::GameOstrich>;
}

/// Emulated address of the loading flag.
pub const LOADING_ADDRESS: usize = 0x803C_B7B3;

/// Emulated address of the game-state enum.
pub const GAME_STATE_ADDRESS: usize = 0x803C_AB43;

/// Emulated address of the game-mode enum.
pub const GAME_MODE_ADDRESS: usize = 0x803C_B8AB;

/// Emulated address of the scene-activity enum.
pub const GAME_OSTRICH_ADDRESS: usize = 0x803C_B8AF;

/// Emulated address of the pointer to the current scene.
pub const SCENE_PTR_ADDRESS: usize = 0x803C_2518;

/// Emulated address of the spatula counter.
pub const SPATULA_COUNT_ADDRESS: usize = 0x803C_205C;

/// Emulated address of the lab door's spatula threshold.
pub const LAB_DOOR_ADDRESS: usize = 0x804F_6CB8;

/// Emulated address of the first power-up flag.
pub const POWERS_ADDRESS: usize = 0x803C_0F15;

/// Emulated address of the pause menu's per-world task table.
pub const SWORLD_BASE: usize = 0x802F_63C8;

/// Size of one world's entry in the pause menu's task table.
pub const SIZE_OF_MENU_WORLD: usize = 0x24C;

/// Size of one task's entry in a world's task table.
pub const SIZE_OF_MENU_TASK: usize = 0x48;

/// The emulated address of a task's pause-menu counter object.
pub open spec fn spec_counter_address(s: Spatula) -> usize {
    (SWORLD_BASE + s.spec_menu_coordinates().0 * SIZE_OF_MENU_WORLD + 0xC
        + s.spec_menu_coordinates().1 * SIZE_OF_MENU_TASK + 0x14) as usize
}

/// The pointer chain of a task's pause-menu counter: the counter object's
/// address, then the offset of its count field.
pub open spec fn spec_counter_chain(s: Spatula) -> Seq<usize> {
    seq![spec_counter_address(s), 0x14]
}

/// The pointer chain of a spatula entity's flags byte: through the scene
/// pointer to the entity array, then to the entity's flags field. `None`
/// for the two spatulas without an entity.
pub open spec fn spec_flags_chain(s: Spatula) -> Option<Seq<usize>> {
    match s.spec_offset() {
        Some(x) => Some(seq![SCENE_PTR_ADDRESS, 0x78, (x * 4) as usize, 0x18]),
        None => None,
    }
}

/// The pointer chain of a spatula entity's state word. `None` for the two
/// spatulas without an entity.
pub open spec fn spec_state_chain(s: Spatula) -> Option<Seq<usize>> {
    match s.spec_offset() {
        Some(x) => Some(seq![SCENE_PTR_ADDRESS, 0x78, (x * 4) as usize, 0x16C]),
        None => None,
    }
}

/// A task's variables point where the game keeps that task's data, within
/// the region starting at `base`.
pub open spec fn spec_task_chains_ok(t: Task<DolphinBackend>, s: Spatula, base: usize) -> bool {
    &&& t.menu_count.spec_chain() == spec_counter_chain(s)
    &&& t.menu_count.spec_region_base() == base
    &&& match s.spec_offset() {
        Some(_x) => {
            &&& t.flags matches Some(f) && f.spec_chain() == spec_flags_chain(s)->0
                && f.spec_region_base() == base
            &&& t.state matches Some(sv) && sv.spec_chain() == spec_state_chain(s)->0
                && sv.spec_region_base() == base
        },
        None => t.flags is None && t.state is None,
    }
}

/// Every variable of an aggregate reads through the game's documented
/// pointer chain, relative to the emulated region starting at `base`.
pub open spec fn spec_interface_wiring(i: GameInterface<DolphinBackend>, base: usize) -> bool {
    &&& i.is_loading.spec_chain() == seq![LOADING_ADDRESS] && i.is_loading.spec_region_base()
        == base
    &&& i.game_state.spec_chain() == seq![GAME_STATE_ADDRESS] && i.game_state.spec_region_base()
        == base
    &&& i.game_mode.spec_chain() == seq![GAME_MODE_ADDRESS] && i.game_mode.spec_region_base()
        == base
    &&& i.game_ostrich.spec_chain() == seq![GAME_OSTRICH_ADDRESS]
        && i.game_ostrich.spec_region_base() == base
    &&& i.scene_id.spec_chain() == seq![SCENE_PTR_ADDRESS, 0usize] && i.scene_id.spec_region_base()
        == base
    &&& i.spatula_count.spec_chain() == seq![SPATULA_COUNT_ADDRESS]
        && i.spatula_count.spec_region_base() == base
    &&& i.lab_door_cost.spec_chain() == seq![LAB_DOOR_ADDRESS] && i.lab_door_cost.spec_region_base()
        == base
    &&& i.powers.bubble_bowl.spec_chain() == seq![POWERS_ADDRESS]
        && i.powers.bubble_bowl.spec_region_base() == base
    &&& i.powers.cruise_bubble.spec_chain() == seq![(POWERS_ADDRESS + 1) as usize]
        && i.powers.cruise_bubble.spec_region_base() == base
    &&& i.powers.initial_bubble_bowl.spec_chain() == seq![(POWERS_ADDRESS + 2) as usize]
        && i.powers.initial_bubble_bowl.spec_region_base() == base
    &&& i.powers.initial_cruise_bubble.spec_chain() == seq![(POWERS_ADDRESS + 3) as usize]
        && i.powers.initial_cruise_bubble.spec_region_base() == base
    &&& i.tasks.wf()
    &&& forall|j: int| 0 <= j < SPATULA_COUNT ==> spec_task_chains_ok(
        #[trigger] i.tasks.arr@[j],
        Spatula::spec_from_index(j),
        base,
    )
}

impl Tasks<DolphinBackend> {
    /// One task per spatula, each wired to the addresses the game keeps
    /// that task's menu counter and entity fields at.
    pub(crate) fn new(base_addr: usize, handle: process_memory::ProcessHandle) -> (r: Self)
        ensures
            r.wf(),
            forall|j: int| 0 <= j < SPATULA_COUNT ==> spec_task_chains_ok(
                #[trigger] r.arr@[j],
                Spatula::spec_from_index(j),
                base_addr,
            ),
    {
        let mut arr: Vec<Task<DolphinBackend>> = Vec::new();
        let mut j: usize = 0;
        while j < SPATULA_COUNT
            invariant
                j <= SPATULA_COUNT,
                arr@.len() == j,
                forall|k: int| 0 <= k < j ==> spec_task_chains_ok(
                    #[trigger] arr@[k],
                    Spatula::spec_from_index(k),
                    base_addr,
                ),
            decreases SPATULA_COUNT - j,
        {
            let s = Spatula::from_index(j);
            proof {
                s.lemma_menu_bounds();
                s.lemma_offset_bound();
            }
            let (world, task_idx) = s.menu_coordinates();

            // Address of the spatula's pause-menu counter object.
            let counter_addr = SWORLD_BASE + world * SIZE_OF_MENU_WORLD + 0xC + task_idx
                * SIZE_OF_MENU_TASK + 0x14;

            let mut counter_chain: Vec<usize> = Vec::new();
            counter_chain.push(counter_addr);
            counter_chain.push(0x14);
            proof {
                assert(counter_chain@ =~= spec_counter_chain(s));
            }
            let menu_count = DolphinVar::new(counter_chain, base_addr, handle);

            let task = match s.get_offset() {
                Some(x) => {
                    let entity = x * 4;
                    let mut flags_chain: Vec<usize> = Vec::new();
                    flags_chain.push(SCENE_PTR_ADDRESS);
                    flags_chain.push(0x78);
                    flags_chain.push(entity);
                    flags_chain.push(0x18);
                    proof {
                        assert(flags_chain@ =~= spec_flags_chain(s)->0);
                    }
                    let mut state_chain: Vec<usize> = Vec::new();
                    state_chain.push(SCENE_PTR_ADDRESS);
                    state_chain.push(0x78);
                    state_chain.push(entity);
                    state_chain.push(0x16C);
                    proof {
                        assert(state_chain@ =~= spec_state_chain(s)->0);
                    }
                    Task {
                        menu_count,
                        flags: Some(DolphinVar::new(flags_chain, base_addr, handle)),
                        state: Some(DolphinVar::new(state_chain, base_addr, handle)),
                    }
                },
                None => Task { menu_count, flags: None, state: None },
            };
            arr.push(task);
            j += 1;
        }
        Tasks { arr }
    }
}

impl PowerUps<DolphinBackend> {
    /// The four adjacent power-up flags, wired to their addresses.
    pub(crate) fn new(base_addr: usize, handle: process_memory::ProcessHandle) -> (r: Self)
        ensures
            r.bubble_bowl.spec_chain() == seq![POWERS_ADDRESS],
            r.cruise_bubble.spec_chain() == seq![(POWERS_ADDRESS + 1) as usize],
            r.initial_bubble_bowl.spec_chain() == seq![(POWERS_ADDRESS + 2) as usize],
            r.initial_cruise_bubble.spec_chain() == seq![(POWERS_ADDRESS + 3) as usize],
            r.bubble_bowl.spec_region_base() == base_addr,
            r.cruise_bubble.spec_region_base() == base_addr,
            r.initial_bubble_bowl.spec_region_base() == base_addr,
            r.initial_cruise_bubble.spec_region_base() == base_addr,
    {
        PowerUps {
            bubble_bowl: single_var(POWERS_ADDRESS, base_addr, handle),
            cruise_bubble: single_var(POWERS_ADDRESS + 1, base_addr, handle),
            initial_bubble_bowl: single_var(POWERS_ADDRESS + 2, base_addr, handle),
            initial_cruise_bubble: single_var(POWERS_ADDRESS + 3, base_addr, handle),
        }
    }
}

/// A variable over a single-element chain: a fixed emulated address with no
/// dereference.
fn single_var<T: GameValue>(
    addr: usize,
    base_addr: usize,
    handle: process_memory::ProcessHandle,
) -> (r: DolphinVar<T>)
    ensures
        r.wf(),
        r.spec_chain() == seq![addr],
        r.spec_region_base() == base_addr,
{
    let mut chain: Vec<usize> = Vec::new();
    chain.push(addr);
    proof {
        assert(chain@ =~= seq![addr]);
    }
    DolphinVar::new(chain, base_addr, handle)
}

impl GameInterface<DolphinBackend> {
    /// An aggregate bound to an emulated region at `base_addr` inside the
    /// process behind `handle`, with every variable wired to the game's
    /// documented addresses.
    pub(crate) fn new(base_addr: usize, handle: process_memory::ProcessHandle) -> (r: Self)
        ensures
            r.wf(),
            spec_interface_wiring(r, base_addr),
    {
        let mut scene_chain: Vec<usize> = Vec::new();
        scene_chain.push(SCENE_PTR_ADDRESS);
        scene_chain.push(0);
        proof {
            assert(scene_chain@ =~= seq![SCENE_PTR_ADDRESS, 0usize]);
        }
        GameInterface {
            is_loading: single_var(LOADING_ADDRESS, base_addr, handle),
            game_state: single_var(GAME_STATE_ADDRESS, base_addr, handle),
            game_mode: single_var(GAME_MODE_ADDRESS, base_addr, handle),
            game_ostrich: single_var(GAME_OSTRICH_ADDRESS, base_addr, handle),
            powers: PowerUps::<DolphinBackend>::new(base_addr, handle),
            scene_id: DolphinVar::new(scene_chain, base_addr, handle),
            spatula_count: single_var(SPATULA_COUNT_ADDRESS, base_addr, handle),
            tasks: Tasks::<DolphinBackend>::new(base_addr, handle),
            lab_door_cost: single_var(LAB_DOOR_ADDRESS, base_addr, handle),
        }
    }
}

} // verus!
