//! Exercises the Dolphin memory layer against this test process's own
//! memory: a buffer owned by the test stands in for the emulated region, so
//! pointer-chain resolution, the byte-order correction, and the checked
//! decoder all run through the real process-memory path.

use bfbb::game_interface::dolphin::data_member::{
    CheckedMemory, DataMember, EMULATED_BASE_ADDRESS,
};
use bfbb::game_interface::dolphin::dolphin_var::DolphinVar;
use bfbb::game_interface::dolphin::Error;
use bfbb::game_interface::game_var::{GameVar, GameVarMut};
use bfbb::game_interface::InterfaceError;
use bfbb::game_state::GameOstrich;
use process_memory::TryIntoProcessHandle;
use sysinfo::PidExt;

fn own_handle() -> process_memory::ProcessHandle {
    let pid = sysinfo::get_current_pid().unwrap();
    (pid.as_u32() as process_memory::Pid).try_into_process_handle().unwrap()
}

#[test]
fn single_element_chain_is_a_pure_translation() {
    // No dereference happens, so no memory is touched at all: the resolved
    // host address is offset - emulated_base + region_base.
    let dm: DataMember<u32> = DataMember::new_offset(
        own_handle(),
        0x4000_0000,
        vec![EMULATED_BASE_ADDRESS + 0x123],
    );
    let (resolved, _reads) = dm.get_offset();
    assert_eq!(resolved, Ok(0x4000_0123));
}

#[test]
fn translation_underflow_is_an_invalid_pointer() {
    // An offset below the emulated base cannot be translated.
    let dm: DataMember<u32> = DataMember::new_offset(own_handle(), 0x4000_0000, vec![0x123]);
    let (resolved, _reads) = dm.get_offset();
    assert_eq!(resolved, Err(Error::InvalidPointer));
}

#[test]
fn intermediate_null_pointer_stops_resolution() {
    // The first hop reads a null pointer (all zeroes); adding the final
    // offset to it stays below the emulated base, so resolution fails with
    // the address-translation error, not an access error.
    let buf: Vec<u8> = vec![0; 16];
    let base = buf.as_ptr() as usize;
    let dm: DataMember<u32> = DataMember::new_offset(
        own_handle(),
        base,
        vec![EMULATED_BASE_ADDRESS, 0x4],
    );
    let (resolved, _reads) = dm.get_offset();
    assert_eq!(resolved, Err(Error::InvalidPointer));
}

#[test]
fn pointer_chain_follows_big_endian_pointers() {
    let mut buf: Vec<u8> = vec![0; 0x20];
    // At emulated address base+0 sits a pointer to emulated 0x8000_0010,
    // stored in the emulated (big-endian) byte order.
    buf[0] = 0x80;
    buf[3] = 0x10;
    // The field at emulated 0x8000_0014 holds the value 7, big-endian.
    buf[0x17] = 7;
    let base = buf.as_ptr() as usize;

    let dm: DataMember<u32> = DataMember::new_offset(
        own_handle(),
        base,
        vec![EMULATED_BASE_ADDRESS, 0x4],
    );
    let (resolved, _reads) = dm.get_offset();
    assert_eq!(resolved, Ok(base + 0x14));
    assert_eq!(dm.checked_read().0, Ok(7));
}

#[test]
fn u32_counter_round_trips_through_memory() {
    // Emulator-order bytes 00 00 00 05 read back as 5; writing 10 stores
    // 00 00 00 0A.
    let buf: Vec<u8> = vec![0, 0, 0, 5];
    let base = buf.as_ptr() as usize;
    let mut var: DolphinVar<u32> =
        DolphinVar::new(vec![EMULATED_BASE_ADDRESS], base, own_handle());
    assert_eq!(var.get(), Ok(5));
    var.set(10).unwrap();
    assert_eq!(buf, vec![0, 0, 0, 0x0A]);
    assert_eq!(var.get(), Ok(10));
}

#[test]
fn i16_counter_is_byte_swapped() {
    let buf: Vec<u8> = vec![0, 2];
    let base = buf.as_ptr() as usize;
    let mut var: DolphinVar<i16> =
        DolphinVar::new(vec![EMULATED_BASE_ADDRESS], base, own_handle());
    assert_eq!(var.get(), Ok(2));
    var.set(-1).unwrap();
    assert_eq!(buf, vec![0xff, 0xff]);
}

#[test]
fn invalid_enum_byte_is_a_decode_error() {
    // A one-byte enum with discriminants 0, 1 and 2 reads a buffer holding
    // 5: the failure is the decode error, not a translation or access one.
    let buf: Vec<u8> = vec![5];
    let base = buf.as_ptr() as usize;
    let dm: DataMember<GameOstrich> =
        DataMember::new_offset(own_handle(), base, vec![EMULATED_BASE_ADDRESS]);
    assert_eq!(dm.checked_read().0, Err(Error::InvalidData));

    let var: DolphinVar<GameOstrich> =
        DolphinVar::new(vec![EMULATED_BASE_ADDRESS], base, own_handle());
    assert_eq!(var.get(), Err(InterfaceError::InvalidData));
}

#[test]
fn valid_enum_byte_decodes() {
    let buf: Vec<u8> = vec![2];
    let base = buf.as_ptr() as usize;
    let var: DolphinVar<GameOstrich> =
        DolphinVar::new(vec![EMULATED_BASE_ADDRESS], base, own_handle());
    assert_eq!(var.get(), Ok(GameOstrich::InScene));
}

#[test]
fn unreadable_address_is_a_connectivity_error() {
    // A chain that translates fine but points at unmapped host memory: the
    // read fails as an access error, which callers see as a lost
    // connection.
    let var: DolphinVar<u32> = DolphinVar::new(vec![EMULATED_BASE_ADDRESS], 8, own_handle());
    assert_eq!(var.get(), Err(InterfaceError::Unhooked));
}
