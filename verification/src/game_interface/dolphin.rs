//! Dolphin backend for [`GameInterface`](super::GameInterface): discovers a
//! running Dolphin emulator process, locates the region of host memory that
//! holds the emulated console's memory, confirms the right game is running
//! in it, and serves typed variables out of that region.

use crate::game_interface::{
    GameInterface, Hooker, InterfaceError, InterfaceResult, Provider, is_hook_error,
};
use vstd::prelude::*;

use self::dolphin_var::{spec_interface_wiring, DolphinBackend};

pub mod data_member;
pub mod dolphin_var;
mod os;

verus! {

/// Error type for failures to interact with the emulator's memory.
#[derive(Clone, Copy, Debug, PartialEq, Eq, Structural)]
pub enum Error {
    /// A pointer-chain dereference left the emulated address space: the
    /// chain followed an invalid or null pointer.
    InvalidPointer,
    /// Bytes read from memory do not form a valid value of the expected
    /// type.
    InvalidData,
    /// The emulator's memory could not be accessed.
    Io,
}

impl Error {
    /// How each memory-layer failure is classified for callers: failed
    /// translation and failed decoding are data problems that leave the
    /// hook alone, while an access failure means the connection is gone.
    pub open spec fn spec_interface_error(self) -> InterfaceError {
        match self {
            Error::InvalidPointer => InterfaceError::InvalidPointer,
            Error::InvalidData => InterfaceError::InvalidData,
            Error::Io => InterfaceError::Unhooked,
        }
    }

    /// Classify this failure for [`GameInterface`] callers.
    pub fn to_interface_error(self) -> (r: InterfaceError)
        ensures
            r == self.spec_interface_error(),
    {
        match self {
            Error::InvalidPointer => InterfaceError::InvalidPointer,
            Error::InvalidData => InterfaceError::InvalidData,
            Error::Io => InterfaceError::Unhooked,
        }
    }
}

/// One memory mapping of a host process: its start address, its size in
/// bytes, and the bytes of the path of the file backing it (empty when the
/// mapping is anonymous).
pub struct MapEntry {
    /// The address at which the mapping starts.
    pub start: usize,
    /// The mapping's size in bytes.
    pub size: usize,
    /// The bytes of the backing file's path.
    pub path: Vec<u8>,
}

/// The documented size of the emulated console's memory region.
pub const REGION_SIZE: usize = 0x200_0000;

/// `needle` occurs in `hay` starting at position `k`.
pub open spec fn matches_at(hay: Seq<u8>, needle: Seq<u8>, k: int) -> bool {
    0 <= k && k + needle.len() <= hay.len() && hay.subrange(k, k + needle.len()) == needle
}

/// `needle` occurs somewhere in `hay`.
pub open spec fn contains_seq(hay: Seq<u8>, needle: Seq<u8>) -> bool {
    exists|k: int| matches_at(hay, needle, k)
}

/// Whether `needle` occurs in `hay` starting at `k`.
fn matches_prefix_at(hay: &Vec<u8>, needle: &Vec<u8>, k: usize) -> (r: bool)
    requires
        k + needle@.len() <= hay@.len(),
    ensures
        r == matches_at(hay@, needle@, k as int),
{
    let hay_len = hay.len();
    let mut m: usize = 0;
    while m < needle.len()
        invariant
            hay@.len() == hay_len,
            k + needle@.len() <= hay@.len(),
            m <= needle@.len(),
            forall|x: int| 0 <= x < m ==> hay@[k + x] == needle@[x],
        decreases needle@.len() - m,
    {
        if hay[k + m] != needle[m] {
            proof {
                assert(hay@.subrange(k as int, k + needle@.len())[m as int] == hay@[k + m]);
            }
            return false;
        }
        m += 1;
    }
    proof {
        assert(hay@.subrange(k as int, k + needle@.len()) =~= needle@);
    }
    true
}

/// Whether `needle` occurs anywhere in `hay`.
fn contains_sub(hay: &Vec<u8>, needle: &Vec<u8>) -> (r: bool)
    ensures
        r == contains_seq(hay@, needle@),
{
    let n = needle.len();
    let h = hay.len();
    if n > h {
        proof {
            assert(forall|k: int| !matches_at(hay@, needle@, k));
        }
        return false;
    }
    if n == 0 {
        proof {
            assert(hay@.subrange(0, 0) =~= needle@);
            assert(matches_at(hay@, needle@, 0));
        }
        return true;
    }
    let mut k: usize = 0;
    while k <= h - n
        invariant
            1 <= n <= h,
            h == hay@.len(),
            n == needle@.len(),
            k <= h - n + 1,
            forall|j: int| 0 <= j < k ==> !matches_at(hay@, needle@, j),
        decreases h - n + 1 - k,
    {
        if matches_prefix_at(hay, needle, k) {
            return true;
        }
        k += 1;
    }
    proof {
        assert forall|j: int| !matches_at(hay@, needle@, j) by {
            if 0 <= j < k {
            } else if j + needle@.len() > hay@.len() {
            }
        }
    }
    false
}

/// Whether a mapping looks like the emulated memory region: it has the
/// documented size and is backed by a file whose path names the emulator.
pub open spec fn spec_region_matches(m: MapEntry, needle: Seq<u8>) -> bool {
    m.size == REGION_SIZE && contains_seq(m.path@, needle)
}

/// The base address the scan picks from a list of mappings: the start of
/// the last mapping that looks like the emulated region.
pub open spec fn spec_selected_base(maps: Seq<MapEntry>, needle: Seq<u8>, base: usize) -> bool {
    exists|i: int|
        0 <= i < maps.len() && (#[trigger] spec_region_matches(maps[i], needle)) && maps[i].start
            == base && (forall|j: int| i < j < maps.len() ==> !spec_region_matches(maps[j], needle))
}

/// Whether one process's scan found the emulated region: its mappings were
/// readable and one of them looks like the region.
pub open spec fn spec_scan_found(scan: Option<Seq<MapEntry>>, needle: Seq<u8>) -> bool {
    scan matches Some(maps) && exists|i: int|
        0 <= i < maps.len() && #[trigger] spec_region_matches(maps[i], needle)
}

/// Pick the base address of the emulated memory region from a process's
/// mappings. Several mappings fit the criteria and differ only by address;
/// the last match is the one that holds the emulated memory.
pub fn select_region(maps: &Vec<MapEntry>, needle: &Vec<u8>) -> (r: Option<usize>)
    ensures
        r matches Some(a) ==> spec_selected_base(maps@, needle@, a),
        r is None ==> forall|i: int|
            0 <= i < maps@.len() ==> !(#[trigger] spec_region_matches(maps@[i], needle@)),
{
    let mut k = maps.len();
    while k > 0
        invariant
            k <= maps@.len(),
            forall|j: int| k <= j < maps@.len() ==> !spec_region_matches(maps@[j], needle@),
        decreases k,
    {
        k -= 1;
        let m = &maps[k];
        if m.size == REGION_SIZE && contains_sub(&m.path, needle) {
            proof {
                assert(spec_region_matches(maps@[k as int], needle@));
            }
            return Some(m.start);
        }
    }
    None
}

/// The bytes of the emulator's name, as it appears in the paths that back
/// its memory mappings.
pub open spec fn spec_emulator_name() -> Seq<u8> {
    seq![0x64u8, 0x6fu8, 0x6cu8, 0x70u8, 0x68u8, 0x69u8, 0x6eu8, 0x2du8, 0x65u8, 0x6du8, 0x75u8]
}

fn emulator_name_bytes() -> (r: Vec<u8>)
    ensures
        r@ == spec_emulator_name(),
{
    let v: Vec<u8> = vec![0x64, 0x6f, 0x6c, 0x70, 0x68, 0x69, 0x6e, 0x2d, 0x65, 0x6d, 0x75];
    proof {
        assert(v@ =~= spec_emulator_name());
    }
    v
}

/// The six-byte code that identifies the right game, stored at the very
/// start of the emulated region.
pub open spec fn spec_game_code() -> Seq<u8> {
    seq![0x47u8, 0x51u8, 0x50u8, 0x45u8, 0x37u8, 0x38u8]
}

fn game_code_bytes() -> (r: Vec<u8>)
    ensures
        r@ == spec_game_code(),
{
    let v: Vec<u8> = vec![0x47, 0x51, 0x50, 0x45, 0x37, 0x38];
    proof {
        assert(v@ =~= spec_game_code());
    }
    v
}

/// Whether two byte strings are equal.
fn bytes_equal(a: &Vec<u8>, b: &Vec<u8>) -> (r: bool)
    ensures
        r == (a@ == b@),
{
    if a.len() != b.len() {
        return false;
    }
    let mut m: usize = 0;
    while m < a.len()
        invariant
            a@.len() == b@.len(),
            m <= a@.len(),
            forall|x: int| 0 <= x < m ==> a@[x] == b@[x],
        decreases a@.len() - m,
    {
        if a[m] != b[m] {
            return false;
        }
        m += 1;
    }
    proof {
        assert(a@ =~= b@);
    }
    true
}

/// What one hook attempt saw, for specification purposes: the hook's
/// result is fixed exactly in terms of such a trace.
pub struct HookTrace {
    /// The ids of the processes carrying the emulator's name, in scan
    /// order.
    pub pids: Seq<i32>,
    /// The mappings seen for each process scanned, in order (`None` where a
    /// process's mappings could not be read); the scan stops at the first
    /// process that yields the region.
    pub scans: Seq<Option<Seq<MapEntry>>>,
    /// The base address of the chosen region.
    pub base: Option<usize>,
    /// The game-code bytes read at the chosen base (`None` when the process
    /// handle could not be opened or the read failed).
    pub code: Option<Seq<u8>>,
}

/// The discovery half of the Dolphin hook: refresh the process list, scan
/// each candidate's memory mappings for the emulated region, validate the
/// game's identity, and build the aggregate.
pub struct DolphinHooker {
    system: sysinfo::System,
}

impl DolphinHooker {
    /// A hooker around a fresh process inspector.
    pub fn new() -> Self {
        DolphinHooker { system: os::new_system() }
    }

    /// Attempt to hook the emulator.
    ///
    /// The emulator is considered hooked when its process is found and the
    /// region of memory emulating the console's memory is located inside
    /// it. The ghost trace witnesses what the attempt saw, and the contract
    /// fixes the outcome by it: an empty candidate list is the
    /// process-not-found error; candidates whose scans all come up empty
    /// are the emulation-not-running error; a chosen region whose handle or
    /// game code cannot be read is a lost connection; a game code other
    /// than the expected one is the wrong-game error; and on success the
    /// aggregate is wired to the chosen base.
    fn hook(&mut self) -> (r: (
        InterfaceResult<GameInterface<DolphinBackend>>,
        Ghost<HookTrace>,
    ))
        ensures
            r.0 matches Ok(i) ==> i.wf(),
            r.0 matches Err(e) ==> is_hook_error(e),
            ({
                let t = r.1@;
                &&& t.scans.len() <= t.pids.len()
                &&& (forall|k: int|
                    0 <= k < t.scans.len() - 1 ==> !spec_scan_found(
                        #[trigger] t.scans[k],
                        spec_emulator_name(),
                    ))
                &&& (t.base matches Some(b) ==> t.scans.len() >= 1 && (t.scans.last() matches Some(
                    maps,
                ) && spec_selected_base(maps, spec_emulator_name(), b)))
                &&& (t.base is None ==> t.scans.len() == t.pids.len() && (forall|k: int|
                    0 <= k < t.scans.len() ==> !spec_scan_found(
                        #[trigger] t.scans[k],
                        spec_emulator_name(),
                    )))
                &&& (r.0 matches Err(e) && e is ProcessNotFound ==> t.pids.len() == 0)
                &&& (r.0 matches Err(e) && e is EmulationNotRunning ==> t.pids.len() > 0
                    && t.base is None)
                &&& (r.0 matches Err(e) && e is Unhooked ==> t.base is Some && t.code is None)
                &&& (r.0 matches Err(e) && e is IncorrectGame ==> (t.code matches Some(c) && c
                    != spec_game_code()))
                &&& (r.0 is Ok ==> t.base is Some && t.code == Some(spec_game_code()))
                &&& (r.0 matches Ok(i) ==> spec_interface_wiring(i, t.base->0))
            }),
    {
        os::refresh_processes(&mut self.system);
        let pids = os::processes_by_name(&self.system, "dolphin-emu");
        let needle = emulator_name_bytes();

        let ghost mut scans: Seq<Option<Seq<MapEntry>>> = Seq::empty();
        let mut found: Option<(i32, usize)> = None;
        let mut idx: usize = 0;
        while idx < pids.len() && found.is_none()
            invariant
                idx <= pids@.len(),
                needle@ == spec_emulator_name(),
                scans.len() == idx,
                found is None ==> (forall|k: int|
                    0 <= k < scans.len() ==> !spec_scan_found(
                        #[trigger] scans[k],
                        spec_emulator_name(),
                    )),
                found matches Some(pb) ==> (scans.len() >= 1 && (forall|k: int|
                    0 <= k < scans.len() - 1 ==> !spec_scan_found(
                        #[trigger] scans[k],
                        spec_emulator_name(),
                    )) && (scans.last() matches Some(maps) && spec_selected_base(
                    maps,
                    spec_emulator_name(),
                    pb.1,
                ))),
            decreases pids@.len() - idx,
        {
            let pid = pids[idx];
            let scan = os::process_maps(pid);
            proof {
                scans = scans.push(
                    if scan is Some {
                        Some(scan->0@)
                    } else {
                        None
                    },
                );
            }
            if let Some(maps) = scan {
                if let Some(base) = select_region(&maps, &needle) {
                    found = Some((pid, base));
                }
            }
            idx += 1;
        }
        let ghost seen_pids = pids@;

        let (pid, base_address) = match found {
            Some(p) => p,
            None => {
                let e = if pids.len() > 0 {
                    InterfaceError::EmulationNotRunning
                } else {
                    InterfaceError::ProcessNotFound
                };
                return (
                    Err(e),
                    Ghost(HookTrace { pids: seen_pids, scans, base: None, code: None }),
                );
            },
        };
        let ghost chosen = Some(base_address);

        let handle = match os::open_process_handle(pid) {
            Some(h) => h,
            None => {
                return (
                    Err(InterfaceError::Unhooked),
                    Ghost(HookTrace { pids: seen_pids, scans, base: chosen, code: None }),
                );
            },
        };

        // Make sure that the program running in the region is the right
        // game.
        let buf = match os::read_memory(&handle, base_address, 6) {
            Ok(b) => b,
            Err(_) => {
                return (
                    Err(InterfaceError::Unhooked),
                    Ghost(HookTrace { pids: seen_pids, scans, base: chosen, code: None }),
                );
            },
        };
        let code = game_code_bytes();
        if !bytes_equal(&buf, &code) {
            return (
                Err(InterfaceError::IncorrectGame),
                Ghost(HookTrace { pids: seen_pids, scans, base: chosen, code: Some(buf@) }),
            );
        }

        (
            Ok(GameInterface::<DolphinBackend>::new(base_address, handle)),
            Ghost(HookTrace { pids: seen_pids, scans, base: chosen, code: Some(buf@) }),
        )
    }
}

impl Hooker for DolphinHooker {
    type Backend = DolphinBackend;

    fn try_hook(&mut self) -> (r: InterfaceResult<GameInterface<DolphinBackend>>) {
        let (r, _trace) = self.hook();
        r
    }
}

/// Provider for a [`GameInterface`] backed by a live Dolphin process: the
/// hook state machine around the Dolphin discovery logic.
pub type DolphinInterface = Provider<DolphinHooker>;

impl Default for Provider<DolphinHooker> {
    /// An unhooked provider; the first use hooks it.
    fn default() -> (r: Self)
        ensures
            !r.hooked(),
            r.wf(),
    {
        Provider::new(DolphinHooker::new())
    }
}

} // verus!
