//! The handle onto a live target process: opening it, probing that it is
//! still there, enumerating its memory maps and threads, freezing it, and
//! copying bytes out of its address space. Every call into the host OS goes
//! through a trusted wrapper around the `remoteprocess` and `proc_maps`
//! crates; everything around those calls is verified.

use vstd::prelude::*;
use crate::types::{Error, MemoryCopyError, Pid};

verus! {

/// How a probe of the target failed.
#[derive(Clone, Copy, Debug, PartialEq, Eq, Structural)]
pub enum ProbeError {
    /// The target does not exist (any more).
    NoProcess,
    /// The target exists but may not be inspected.
    PermissionDenied,
    /// Any other fault.
    Other,
}

/// Relies on `remoteprocess::Process::new`: obtains an OS handle onto the
/// process with this pid.
#[verifier::external_body]
fn open_handle(pid: Pid) -> (r: Result<remoteprocess::Process, ProbeError>)
{
    match remoteprocess::Process::new(pid) {
        Ok(p) => Ok(p),
        Err(remoteprocess::Error::IOError(e)) => Err(match e.kind() {
            std::io::ErrorKind::NotFound => ProbeError::NoProcess,
            std::io::ErrorKind::PermissionDenied => ProbeError::PermissionDenied,
            _ => ProbeError::Other,
        }),
        Err(_) => Err(ProbeError::Other),
    }
}

/// Relies on `remoteprocess::Process::exe`: returns the path of the target's
/// executable, failing when the target is gone or protected. Used as the
/// liveness probe.
#[verifier::external_body]
fn handle_exe(handle: &remoteprocess::Process) -> (r: Result<String, ProbeError>)
{
    match handle.exe() {
        Ok(p) => Ok(p),
        Err(remoteprocess::Error::IOError(e)) => Err(match e.kind() {
            std::io::ErrorKind::NotFound => ProbeError::NoProcess,
            std::io::ErrorKind::PermissionDenied => ProbeError::PermissionDenied,
            _ => ProbeError::Other,
        }),
        Err(_) => Err(ProbeError::Other),
    }
}

/// Relies on `remoteprocess::Process::threads`: lists the target's threads.
#[verifier::external_body]
fn handle_threads(handle: &remoteprocess::Process) -> (r: Result<
    Vec<remoteprocess::Thread>,
    ProbeError,
>)
{
    match handle.threads() {
        Ok(ts) => Ok(ts),
        Err(remoteprocess::Error::IOError(e)) => Err(match e.kind() {
            std::io::ErrorKind::NotFound => ProbeError::NoProcess,
            std::io::ErrorKind::PermissionDenied => ProbeError::PermissionDenied,
            _ => ProbeError::Other,
        }),
        Err(_) => Err(ProbeError::Other),
    }
}

/// Relies on `remoteprocess::Thread::active`: true iff the thread is
/// scheduled on a CPU at the moment of the call.
#[verifier::external_body]
fn thread_active(thread: &remoteprocess::Thread) -> (r: Result<bool, ProbeError>)
{
    match thread.active() {
        Ok(b) => Ok(b),
        Err(_) => Err(ProbeError::Other),
    }
}

/// Relies on `remoteprocess::Process::lock`: suspends every thread of the
/// target; the suspension ends when the returned guard is dropped.
#[verifier::external_body]
fn lock_handle(handle: &remoteprocess::Process) -> (r: Result<remoteprocess::Lock, ProbeError>)
{
    match handle.lock() {
        Ok(l) => Ok(l),
        Err(remoteprocess::Error::IOError(e)) => Err(match e.kind() {
            std::io::ErrorKind::NotFound => ProbeError::NoProcess,
            std::io::ErrorKind::PermissionDenied => ProbeError::PermissionDenied,
            _ => ProbeError::Other,
        }),
        Err(_) => Err(ProbeError::Other),
    }
}

/// Relies on `remoteprocess::ProcessMemory::read`: copies `len` bytes from
/// the target's address space starting at `addr`. The returned buffer always
/// has length `len`; a fault is reported as an invalid read of `addr`.
#[verifier::external_body]
fn read_bytes(handle: &remoteprocess::Process, addr: usize, len: usize) -> (r: Result<
    Vec<u8>,
    MemoryCopyError,
>)
    ensures
        r matches Ok(b) ==> b@.len() == len,
        r matches Err(e) ==> e == MemoryCopyError::InvalidAddressError(addr),
{
    let mut buf = vec![0u8; len];
    match remoteprocess::ProcessMemory::read(handle, addr, &mut buf) {
        Ok(()) => Ok(buf),
        Err(_) => Err(MemoryCopyError::InvalidAddressError(addr)),
    }
}

/// Relies on `proc_maps::get_process_maps`: the target's memory maps.
#[verifier::external_body]
fn fetch_maps(pid: Pid) -> (r: Result<Vec<proc_maps::MapRange>, ProbeError>)
{
    match proc_maps::get_process_maps(pid) {
        Ok(ms) => Ok(ms),
        Err(e) => Err(match e.kind() {
            std::io::ErrorKind::NotFound => ProbeError::NoProcess,
            std::io::ErrorKind::PermissionDenied => ProbeError::PermissionDenied,
            _ => ProbeError::Other,
        }),
    }
}

/// Relies on `proc_maps::MapRange::start`.
#[verifier::external_body]
fn map_start(m: &proc_maps::MapRange) -> usize {
    m.start()
}

/// Relies on `proc_maps::MapRange::size`.
#[verifier::external_body]
fn map_size(m: &proc_maps::MapRange) -> usize {
    m.size()
}

/// Relies on `proc_maps::MapRange::filename`: the backing file, as text.
#[verifier::external_body]
fn map_filename(m: &proc_maps::MapRange) -> Option<String> {
    m.filename().map(|p| p.to_string_lossy().into_owned())
}

/// Relies on `proc_maps::MapRange::is_read`.
#[verifier::external_body]
fn map_is_read(m: &proc_maps::MapRange) -> bool {
    m.is_read()
}

/// Relies on `proc_maps::MapRange::is_write`.
#[verifier::external_body]
fn map_is_write(m: &proc_maps::MapRange) -> bool {
    m.is_write()
}

/// Relies on `proc_maps::MapRange::is_exec`.
#[verifier::external_body]
fn map_is_exec(m: &proc_maps::MapRange) -> bool {
    m.is_exec()
}

/// One memory map of the target, as plain values.
#[derive(Clone, Debug)]
pub struct MapInfo {
    pub start: usize,
    pub size: usize,
    pub path: Option<String>,
    pub read: bool,
    pub write: bool,
    pub can_exec: bool,
}

/// A live, exclusively owned handle onto the target process.
pub struct TargetProcess {
    pub pid: Pid,
    pub handle: remoteprocess::Process,
}

impl TargetProcess {
    /// Opens the process with this pid and probes that it is really there.
    pub fn new(pid: Pid) -> (r: Result<TargetProcess, Error>)
        ensures
            r matches Ok(p) ==> p.pid == pid,
            r matches Err(e) ==> e == Error::NoSuchProcess(pid) || e == Error::PermissionDenied(
                pid,
            ),
    {
        let handle = match open_handle(pid) {
            Ok(h) => h,
            Err(ProbeError::PermissionDenied) => {
                return Err(Error::PermissionDenied(pid));
            },
            Err(_) => {
                return Err(Error::NoSuchProcess(pid));
            },
        };
        let p = TargetProcess { pid, handle };
        match p.exe() {
            Ok(_) => Ok(p),
            Err(ProbeError::PermissionDenied) => Err(Error::PermissionDenied(pid)),
            Err(_) => Err(Error::NoSuchProcess(pid)),
        }
    }

    /// The path of the target's executable; failure means the target is gone
    /// or protected.
    pub fn exe(&self) -> Result<String, ProbeError> {
        handle_exe(&self.handle)
    }

    /// True when some thread of the target is scheduled on a CPU right now.
    pub fn any_thread_on_cpu(&self) -> Result<bool, ProbeError> {
        let threads = handle_threads(&self.handle)?;
        let n = threads.len();
        let mut i: usize = 0;
        while i < n
            invariant
                n == threads@.len(),
                i <= n,
            decreases n - i,
        {
            let active = thread_active(&threads[i])?;
            if active {
                return Ok(true);
            }
            i = i + 1;
        }
        Ok(false)
    }

    /// Suspends the target until the returned guard is dropped.
    pub fn freeze(&self) -> Result<remoteprocess::Lock, ProbeError> {
        lock_handle(&self.handle)
    }

    /// Copies `len` bytes out of the target starting at `addr`.
    pub fn copy_bytes(&self, addr: usize, len: usize) -> (r: Result<Vec<u8>, MemoryCopyError>)
        ensures
            r matches Ok(b) ==> b@.len() == len,
            r matches Err(e) ==> e == MemoryCopyError::InvalidAddressError(addr),
    {
        read_bytes(&self.handle, addr, len)
    }

    /// The target's memory maps, as plain values.
    pub fn maps(&self) -> Result<Vec<MapInfo>, ProbeError> {
        let raw = fetch_maps(self.pid)?;
        let n = raw.len();
        let mut out: Vec<MapInfo> = Vec::new();
        let mut i: usize = 0;
        while i < n
            invariant
                n == raw@.len(),
                i <= n,
            decreases n - i,
        {
            let m = &raw[i];
            out.push(
                MapInfo {
                    start: map_start(m),
                    size: map_size(m),
                    path: map_filename(m),
                    read: map_is_read(m),
                    write: map_is_write(m),
                    can_exec: map_is_exec(m),
                },
            );
            i = i + 1;
        }
        Ok(out)
    }
}

} // verus!
