//! Bootstrap and trace acquisition: detecting the target's Ruby version,
//! locating the interpreter's addresses, selecting the version-specific
//! reader, and sampling stack traces with retry, reinitialize and terminate
//! decisions.

use vstd::prelude::*;
use vstd::string::StringExecFns;
use crate::address::{current_thread_address, get_ruby_version, get_vm_address};
use crate::process::{ProbeError, TargetProcess};
use crate::registry::VersionReaderRegistry;
use crate::types::{spec_trace_wf, trace_is_well_formed, Error, MemoryCopyError, Pid, StackTrace};
use crate::version::{is_supported, spec_at_least, spec_is_supported, RubyVersion};

verus! {

/// A witness that a version has a structural decoder: the version the
/// registry is asked for at every sample.
#[derive(Clone, Copy, Debug, PartialEq, Eq, Structural)]
pub struct VersionReader {
    pub version: RubyVersion,
}

/// The version dispatcher: an exact map from version to reader. Every
/// supported version yields a reader bound to that version; any other
/// version is refused with an error carrying it.
pub fn get_stack_trace_function(version: &RubyVersion) -> (r: Result<VersionReader, Error>)
    ensures
        spec_is_supported(*version) <==> r is Ok,
        r matches Ok(rd) ==> rd.version == *version,
        r matches Err(e) ==> e == Error::UnsupportedVersion(*version),
{
    if is_supported(version) {
        Ok(VersionReader { version: *version })
    } else {
        Err(Error::UnsupportedVersion(*version))
    }
}

/// Turns a probe failure on a live sampling path into an error.
pub fn probe_error(pid: Pid, e: ProbeError) -> (r: Error)
    ensures
        e == ProbeError::NoProcess ==> r == Error::MemoryCopy(MemoryCopyError::ProcessEnded),
        e == ProbeError::PermissionDenied ==> r == Error::PermissionDenied(pid),
        e == ProbeError::Other ==> (r matches Error::MemoryCopy(m) && (m matches
            MemoryCopyError::Other(s) && s@ == "the target process could not be probed"@)),
{
    match e {
        ProbeError::NoProcess => Error::MemoryCopy(MemoryCopyError::ProcessEnded),
        ProbeError::PermissionDenied => Error::PermissionDenied(pid),
        ProbeError::Other => Error::MemoryCopy(
            MemoryCopyError::Other(String::from_str("the target process could not be probed")),
        ),
    }
}

/// A failed sample calls for a reinitialize exactly when the fault is an
/// invalid read of the current-thread slot itself: the target has exec'd or
/// relocated its VM.
pub open spec fn spec_triggers_reinit(e: MemoryCopyError, current_thread_addr_location: usize) -> bool {
    e matches MemoryCopyError::InvalidAddressError(addr) && addr == current_thread_addr_location
}

/// Whether a failed sample calls for a reinitialize.
pub fn triggers_reinit(e: &MemoryCopyError, current_thread_addr_location: usize) -> (r: bool)
    ensures
        r == spec_triggers_reinit(*e, current_thread_addr_location),
{
    match e {
        MemoryCopyError::InvalidAddressError(addr) => *addr == current_thread_addr_location,
        _ => false,
    }
}

/// The error a failed sample surfaces once a reinitialize is ruled out:
/// when the liveness probe says the target is gone, the fault collapses to
/// the terminal end-of-process error; otherwise it is handed through.
pub fn surfaced_error(e: MemoryCopyError, target_alive: bool) -> (r: Error)
    ensures
        r == if target_alive {
            Error::MemoryCopy(e)
        } else {
            Error::MemoryCopy(MemoryCopyError::ProcessEnded)
        },
{
    if target_alive {
        Error::MemoryCopy(e)
    } else {
        Error::MemoryCopy(MemoryCopyError::ProcessEnded)
    }
}

/// Samples stack traces from one target process.
pub struct StackTraceGetter<R: VersionReaderRegistry> {
    pub process: TargetProcess,
    pub current_thread_addr_location: usize,
    pub ruby_vm_addr_location: usize,
    pub global_symbols_addr_location: Option<usize>,
    pub reader: VersionReader,
    pub registry: R,
    pub reinit_count: u32,
    pub lock_process: bool,
    pub force_version: Option<RubyVersion>,
    pub on_cpu: bool,
}

impl<R: VersionReaderRegistry> StackTraceGetter<R> {
    /// The address triple is consistent with the version: from 3.0.0 on the
    /// current-thread slot is the zero sentinel (resolved through the VM at
    /// sample time), before 3.0.0 it is a real address; the VM slot is
    /// always a real address; a forced version is the version in use.
    pub open spec fn wf(self) -> bool {
        &&& spec_is_supported(self.reader.version)
        &&& (spec_at_least(self.reader.version, 3, 0, 0) <==> self.current_thread_addr_location
            == 0)
        &&& self.ruby_vm_addr_location != 0
        &&& (self.global_symbols_addr_location matches Some(a) ==> a != 0)
        &&& (self.force_version matches Some(v) ==> v == self.reader.version)
    }
}

/// After a bootstrap the address triple is consistent with the version in
/// use: at or past 3.0.0 the current-thread slot is the zero sentinel and
/// the reader resolves the thread through the VM; before 3.0.0 the slot is
/// a real address. The VM slot is a real address either way.
pub proof fn lemma_bootstrap_triple_consistency<R: VersionReaderRegistry>(g: StackTraceGetter<R>)
    requires
        g.wf(),
    ensures
        spec_at_least(g.reader.version, 3, 0, 0) ==> g.current_thread_addr_location == 0,
        !spec_at_least(g.reader.version, 3, 0, 0) ==> g.current_thread_addr_location != 0,
        g.ruby_vm_addr_location != 0,
{
}

/// One bootstrap pass composed into the ready state: the process handle,
/// the current-thread slot, the VM slot, the symbol-table slot, the reader.
type RubyState = (TargetProcess, usize, usize, Option<usize>, VersionReader);

/// Whether a failed bootstrap pass is worth another: only the transient
/// failures are (no version string yet, addresses not yet in place -- a
/// version-manager shim execs the real interpreter only after a while, and
/// the dynamic linker needs time to map it), and only while the ceiling of
/// a hundred retries is not spent. Callers pace the retries, a millisecond
/// apart.
pub open spec fn spec_should_retry_bootstrap(e: Error, retries: u32) -> bool {
    &&& retries < 100
    &&& match e {
        Error::CouldNotDetectVersion => true,
        Error::AddressesNotFound(_, _, _, _) => true,
        _ => false,
    }
}

/// The retry decision for a failed bootstrap pass, given how many retries
/// were already made.
pub fn should_retry_bootstrap(e: &Error, retries: u32) -> (r: bool)
    ensures
        r == spec_should_retry_bootstrap(*e, retries),
{
    if retries >= 100 {
        return false;
    }
    match e {
        Error::CouldNotDetectVersion => true,
        Error::AddressesNotFound(_, _, _, _) => true,
        _ => false,
    }
}

/// One pass of address discovery: open the target, read its maps, detect or
/// take the forced version, bind the version's reader, and locate the
/// slots. A failure to locate carries the diagnostic of what was and was
/// not found; `should_retry_bootstrap` says whether a pass is worth
/// repeating.
fn get_process_ruby_state<R: VersionReaderRegistry>(
    pid: Pid,
    force_version: Option<RubyVersion>,
    registry: &R,
) -> (r: Result<RubyState, Error>)
    ensures
        r matches Ok(s) ==> {
            &&& s.0.pid == pid
            &&& spec_is_supported(s.4.version)
            &&& (spec_at_least(s.4.version, 3, 0, 0) <==> s.1 == 0)
            &&& s.2 != 0
            &&& (s.3 matches Some(a) ==> a != 0)
            &&& (force_version matches Some(v) ==> s.4.version == v)
        },
        r matches Err(e) ==> match e {
            Error::NoSuchProcess(p) => p == pid,
            Error::PermissionDenied(p) => p == pid,
            Error::UnsupportedVersion(u) => force_version matches Some(fv) ==> u == fv,
            Error::CouldNotDetectVersion => force_version is None,
            Error::AddressesNotFound(u, ct, vm, gs) => !(ct && vm) && (force_version matches Some(
                fv,
            ) ==> u == fv),
            Error::MemoryCopy(_) => false,
        },
{
    let process = TargetProcess::new(pid)?;
    let maps = match process.maps() {
        Ok(ms) => ms,
        Err(ProbeError::NoProcess) => {
            return Err(Error::NoSuchProcess(pid));
        },
        Err(ProbeError::PermissionDenied) => {
            return Err(Error::PermissionDenied(pid));
        },
        Err(ProbeError::Other) => {
            return Err(
                match force_version {
                    Some(v) => Error::AddressesNotFound(v, false, false, false),
                    None => Error::CouldNotDetectVersion,
                },
            );
        },
    };
    let version = match force_version {
        Some(v) => v,
        None => get_ruby_version(&process, &maps)?,
    };
    let reader = get_stack_trace_function(&version)?;
    let current_thread_addr = if version.at_least(3, 0, 0) {
        // no current-thread symbol from 3.0 on: the reader chases it
        // through the VM at every sample
        Some(0usize)
    } else {
        current_thread_address(&process, &version, registry, &maps)
    };
    let vm_addr = get_vm_address(&process, &version, registry, &maps);
    // the interned-symbol table is optional: its absence (older interpreters
    // lack it, and symbol information may be gone) never fails the bootstrap
    let global_symbols_addr = match registry.global_symbols_address(&version, &process, &maps) {
        Some(a) if a != 0 => Some(a),
        _ => None,
    };
    match (current_thread_addr, vm_addr) {
        (Some(cta), Some(vma)) => Ok((process, cta, vma, global_symbols_addr, reader)),
        (ct, vm) => Err(
            Error::AddressesNotFound(
                version,
                ct.is_some(),
                vm.is_some(),
                global_symbols_addr.is_some(),
            ),
        ),
    }
}

/// Bootstraps a trace getter for the process with this pid in one pass:
/// detects or takes the forced version, locates the interpreter addresses,
/// and binds the version's reader. The optional symbol-table slot is taken
/// when the capability locates it; its absence never fails the bootstrap.
/// A transient failure is worth retrying a millisecond later while
/// `should_retry_bootstrap` says so; the pacing between passes is the
/// caller's.
pub fn initialize<R: VersionReaderRegistry>(
    pid: Pid,
    lock_process: bool,
    force_version: Option<RubyVersion>,
    on_cpu: bool,
    registry: R,
) -> (r: Result<StackTraceGetter<R>, Error>)
    ensures
        r matches Ok(g) ==> {
            &&& g.wf()
            &&& g.process.pid == pid
            &&& g.reinit_count == 0
            &&& g.lock_process == lock_process
            &&& g.force_version == force_version
            &&& g.on_cpu == on_cpu
        },
        r matches Err(e) ==> match e {
            Error::NoSuchProcess(p) => p == pid,
            Error::PermissionDenied(p) => p == pid,
            Error::UnsupportedVersion(u) => force_version matches Some(fv) ==> u == fv,
            Error::CouldNotDetectVersion => force_version is None,
            Error::AddressesNotFound(u, ct, vm, gs) => !(ct && vm) && (force_version matches Some(
                fv,
            ) ==> u == fv),
            Error::MemoryCopy(_) => false,
        },
{
    let state = get_process_ruby_state(pid, force_version, &registry)?;
    let (process, current_thread_addr_location, ruby_vm_addr_location, global_symbols_addr_location, reader) =
        state;
    Ok(
        StackTraceGetter {
            process,
            current_thread_addr_location,
            ruby_vm_addr_location,
            global_symbols_addr_location,
            reader,
            registry,
            reinit_count: 0,
            lock_process,
            force_version,
            on_cpu,
        },
    )
}

impl<R: VersionReaderRegistry> StackTraceGetter<R> {
    /// Produces one stack trace, or nothing when only-on-CPU sampling finds
    /// the target off-CPU, or a classified error. A sample that faults on
    /// the current-thread slot itself reinitializes once (the target has
    /// exec'd) and surfaces the second outcome; `reinit_count` grows by one
    /// exactly then.
    pub fn get_trace(&mut self) -> (r: Result<Option<StackTrace>, Error>)
        requires
            old(self).wf(),
            old(self).reinit_count < u32::MAX,
        ensures
            final(self).wf(),
            final(self).process.pid == old(self).process.pid,
            final(self).lock_process == old(self).lock_process,
            final(self).on_cpu == old(self).on_cpu,
            final(self).force_version == old(self).force_version,
            final(self).reinit_count == old(self).reinit_count || final(self).reinit_count == old(
                self,
            ).reinit_count + 1,
            final(self).reinit_count == old(self).reinit_count ==> {
                &&& final(self).current_thread_addr_location == old(
                    self,
                ).current_thread_addr_location
                &&& final(self).ruby_vm_addr_location == old(self).ruby_vm_addr_location
                &&& final(self).global_symbols_addr_location == old(
                    self,
                ).global_symbols_addr_location
            },
            r matches Ok(Some(t)) ==> t.pid == Some(old(self).process.pid) && spec_trace_wf(t),
            r matches Err(e) ==> (old(self).force_version matches Some(_) ==> e
                != Error::CouldNotDetectVersion),
    {
        // the on-CPU gate comes before any freeze: freezing would itself
        // take the target off-CPU
        if self.on_cpu {
            match self.is_on_cpu_os_specific() {
                Ok(true) => {
                },
                Ok(false) => {
                    return Ok(None);
                },
                Err(e) => {
                    return Err(e);
                },
            }
        }
        match self.get_trace_from_current_thread() {
            Ok(Some(trace)) => {
                let mut t = trace;
                t.pid = Some(self.process.pid);
                return Ok(Some(t));
            },
            Ok(None) => {
                return Ok(None);
            },
            Err(e) => {
                if !triggers_reinit(&e, self.current_thread_addr_location) {
                    let alive = self.process.exe().is_ok();
                    return Err(surfaced_error(e, alive));
                }
            },
        }
        // the current-thread slot no longer reads: the target exec'd or
        // relocated its VM; bootstrap again and retry the sample once
        self.reinitialize()?;
        match self.get_trace_from_current_thread() {
            Ok(Some(trace)) => {
                let mut t = trace;
                t.pid = Some(self.process.pid);
                Ok(Some(t))
            },
            Ok(None) => Ok(None),
            Err(e) => Err(Error::MemoryCopy(e)),
        }
    }

    /// True when some thread of the target is on a CPU at this moment.
    pub fn is_on_cpu_os_specific(&self) -> (r: Result<bool, Error>)
        ensures
            r matches Err(e) ==> (e matches Error::MemoryCopy(_) || e == Error::PermissionDenied(
                self.process.pid,
            )),
    {
        match self.process.any_thread_on_cpu() {
            Ok(b) => Ok(b),
            Err(pe) => Err(probe_error(self.process.pid, pe)),
        }
    }

    /// One walk of the target's call-frame chain, under the scoped freeze
    /// when freezing was requested; the freeze ends on every path out. The
    /// reader's outcome is validated: a trace with no frames or an unnamed
    /// frame counts as no sample.
    pub fn get_trace_from_current_thread(&self) -> (r: Result<Option<StackTrace>, MemoryCopyError>)
        ensures
            r matches Ok(Some(t)) ==> spec_trace_wf(t),
    {
        let raw = if self.lock_process {
            let guard = match self.process.freeze() {
                Ok(g) => g,
                Err(_) => {
                    return Err(
                        MemoryCopyError::Other(
                            String::from_str("locking the target for the sample failed"),
                        ),
                    );
                },
            };
            let r = self.registry.get_stack_trace(
                &self.reader.version,
                self.current_thread_addr_location,
                self.ruby_vm_addr_location,
                self.global_symbols_addr_location,
                &self.process,
                self.process.pid,
                self.on_cpu,
            );
            r
        } else {
            self.registry.get_stack_trace(
                &self.reader.version,
                self.current_thread_addr_location,
                self.ruby_vm_addr_location,
                self.global_symbols_addr_location,
                &self.process,
                self.process.pid,
                self.on_cpu,
            )
        };
        match raw {
            Ok(Some(t)) => {
                if trace_is_well_formed(&t) {
                    Ok(Some(t))
                } else {
                    Ok(None)
                }
            },
            Ok(None) => Ok(None),
            Err(e) => Err(e),
        }
    }

    /// Runs one bootstrap pass against the same pid again, after the
    /// previously discovered addresses stopped being valid. On success the
    /// whole address triple is replaced and `reinit_count` grows by exactly
    /// one; on failure nothing changes, and the caller may sample again
    /// once the target has settled.
    pub fn reinitialize(&mut self) -> (r: Result<(), Error>)
        requires
            old(self).wf(),
            old(self).reinit_count < u32::MAX,
        ensures
            final(self).wf(),
            final(self).process.pid == old(self).process.pid,
            final(self).lock_process == old(self).lock_process,
            final(self).on_cpu == old(self).on_cpu,
            final(self).force_version == old(self).force_version,
            r is Ok ==> final(self).reinit_count == old(self).reinit_count + 1,
            r is Err ==> *final(self) == *old(self),
            r matches Err(e) ==> (old(self).force_version matches Some(_) ==> e
                != Error::CouldNotDetectVersion),
    {
        let state = get_process_ruby_state(self.process.pid, self.force_version, &self.registry)?;
        let (process, current_thread_addr_location, ruby_vm_addr_location, global_symbols_addr_location, reader) =
            state;
        self.process = process;
        self.current_thread_addr_location = current_thread_addr_location;
        self.ruby_vm_addr_location = ruby_vm_addr_location;
        self.global_symbols_addr_location = global_symbols_addr_location;
        self.reader = reader;
        self.reinit_count = self.reinit_count + 1;
        Ok(())
    }
}

} // verus!
