//! The crate's trusted boundary to the host operating system: process
//! listing, memory-map inspection, and cross-process memory transfer.
//!
//! Every function here wraps one call into an outside crate; nothing else in
//! the crate talks to the host OS. Their results depend on the live system,
//! so the contracts state only what holds of every outcome.

use super::{Error, MapEntry};
use process_memory::{CopyAddress, PutAddress, TryIntoProcessHandle};
use sysinfo::{PidExt, ProcessExt, SystemExt};
use vstd::prelude::*;

verus! {

#[verifier::external_type_specification]
#[verifier::external_body]
pub struct ExSystem(sysinfo::System);

#[verifier::external_type_specification]
#[verifier::external_body]
pub struct ExArchitecture(process_memory::Architecture);

/// Relies on `sysinfo::SystemExt::new`: a process inspector with nothing
/// refreshed yet.
#[verifier::external_body]
pub(crate) fn new_system() -> sysinfo::System {
    sysinfo::System::new()
}

/// Relies on `sysinfo::SystemExt::refresh_processes`: brings the
/// inspector's process list up to date.
#[verifier::external_body]
pub(crate) fn refresh_processes(system: &mut sysinfo::System) {
    system.refresh_processes()
}

/// Relies on `sysinfo::SystemExt::processes_by_name`: the processes whose
/// name contains `name`, each handed out as its process id.
#[verifier::external_body]
pub(crate) fn processes_by_name(system: &sysinfo::System, name: &str) -> Vec<i32> {
    system.processes_by_name(name).map(|p| p.pid().as_u32() as i32).collect()
}

/// Relies on `proc_maps::get_process_maps`: the process's memory mappings,
/// each handed out as its start address, its size, and the bytes of its
/// backing file's path; `None` when the mappings cannot be read.
#[verifier::external_body]
pub(crate) fn process_maps(pid: i32) -> Option<Vec<MapEntry>> {
    let maps = proc_maps::get_process_maps(pid).ok()?;
    Some(maps.iter().map(|m| MapEntry {
        start: m.start(),
        size: m.size(),
        path: m.filename().map(|f| f.to_string_lossy().into_owned().into_bytes()).unwrap_or(
            Vec::new(),
        ),
    }).collect())
}

/// Relies on `process_memory::TryIntoProcessHandle` for process ids: a
/// handle for reading and writing the process's memory.
#[verifier::external_body]
pub(crate) fn open_process_handle(pid: i32) -> Option<process_memory::ProcessHandle> {
    match (pid as process_memory::Pid).try_into_process_handle() {
        Ok(h) => Some(h),
        Err(_) => None,
    }
}

/// Relies on `process_memory::CopyAddress::copy_address`: fills a buffer of
/// exactly `len` bytes from the target process's memory at `addr`, or
/// reports an access error and hands no bytes out.
#[verifier::external_body]
pub(crate) fn read_memory(
    handle: &process_memory::ProcessHandle,
    addr: usize,
    len: usize,
) -> (r: Result<Vec<u8>, Error>)
    ensures
        r matches Ok(b) ==> b@.len() == len,
        r matches Err(e) ==> e is Io,
{
    let mut buf = vec![0u8; len];
    match handle.copy_address(addr, &mut buf) {
        Ok(()) => Ok(buf),
        Err(_) => Err(Error::Io),
    }
}

/// Relies on `process_memory::PutAddress::put_address`: writes the whole
/// buffer into the target process's memory at `addr`, or reports an access
/// error.
#[verifier::external_body]
pub(crate) fn write_memory(
    handle: &process_memory::ProcessHandle,
    addr: usize,
    data: &[u8],
) -> (r: Result<(), Error>)
    ensures
        r matches Err(e) ==> e is Io,
{
    match handle.put_address(addr, data) {
        Ok(()) => Ok(()),
        Err(_) => Err(Error::Io),
    }
}

} // verus!
