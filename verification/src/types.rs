//! Core data model: stack frames, stack traces, and the error taxonomy of
//! the bootstrap and sampling paths, with the exact text each error renders
//! to.

use vstd::prelude::*;
use vstd::string::StringExecFns;
use crate::text::{push_decimal, push_decimal_signed, spec_decimal, spec_decimal_signed};
use crate::version::RubyVersion;

verus! {

/// A process id as the host OS hands it out.
pub type Pid = i32;

/// What produced a frame inside the target interpreter.
#[derive(Clone, Copy, Debug, PartialEq, Eq, Structural)]
pub enum FrameKind {
    Ruby,
    CFunc,
    Unknown,
}

/// One Ruby-level stack frame.
#[derive(Clone, Debug)]
pub struct StackFrame {
    pub method_name: String,
    pub path: String,
    pub line: u32,
    pub kind: FrameKind,
}

/// One sampled stack: frames ordered innermost first, outermost last.
#[derive(Clone, Debug)]
pub struct StackTrace {
    pub pid: Option<Pid>,
    pub on_cpu: Option<bool>,
    pub trace: Vec<StackFrame>,
}

/// A well-formed sampled trace: at least one frame, and every frame names
/// its method. (Line numbers are non-negative by type.)
pub open spec fn spec_trace_wf(t: StackTrace) -> bool {
    &&& t.trace@.len() > 0
    &&& forall|i: int|
        0 <= i < t.trace@.len() ==> (#[trigger] t.trace@[i]).method_name@.len() > 0
}

/// Whether a sampled trace is well formed: frames present, every one named.
pub fn trace_is_well_formed(t: &StackTrace) -> (r: bool)
    ensures
        r == spec_trace_wf(*t),
{
    let n = t.trace.len();
    if n == 0 {
        return false;
    }
    let mut i: usize = 0;
    while i < n
        invariant
            n == t.trace@.len(),
            i <= n,
            forall|q: int| 0 <= q < i ==> (#[trigger] t.trace@[q]).method_name@.len() > 0,
        decreases n - i,
    {
        if t.trace[i].method_name.as_str().is_empty() {
            return false;
        }
        i = i + 1;
    }
    true
}

/// A fault while copying structures out of the target's address space.
#[derive(Clone, Debug)]
pub enum MemoryCopyError {
    /// The given address could not be read.
    InvalidAddressError(usize),
    /// The target process is gone.
    ProcessEnded,
    /// Any other fault, described in text.
    Other(String),
}

/// Everything the bootstrap and sampling paths can fail with.
#[derive(Clone, Debug)]
pub enum Error {
    /// No process with this pid exists.
    NoSuchProcess(Pid),
    /// The process exists but may not be inspected.
    PermissionDenied(Pid),
    /// The detected or forced version has no structural decoder.
    UnsupportedVersion(RubyVersion),
    /// No version string could be read from the target within the retry
    /// budget.
    CouldNotDetectVersion,
    /// The version was read but a required interpreter address was not
    /// found: the version, then whether the current-thread slot, the VM
    /// slot and the optional symbol-table slot were located.
    AddressesNotFound(RubyVersion, bool, bool, bool),
    /// A memory fault surfaced by a sample.
    MemoryCopy(MemoryCopyError),
}

/// The dotted spelling of a version triple.
pub open spec fn spec_version_chars(v: RubyVersion) -> Seq<char> {
    spec_decimal(v.major as int) + seq!['.'] + spec_decimal(v.minor as int) + seq!['.']
        + spec_decimal(v.patch as int)
}

impl RubyVersion {
    /// The dotted `MAJOR.MINOR.PATCH` spelling.
    pub fn to_text(&self) -> (r: String)
        ensures
            r@ == spec_version_chars(*self),
    {
        let mut s = String::new();
        push_decimal(&mut s, self.major as u64);
        s.append(".");
        push_decimal(&mut s, self.minor as u64);
        s.append(".");
        push_decimal(&mut s, self.patch as u64);
        proof {
            reveal_strlit(".");
            assert(s@ =~= spec_version_chars(*self));
        }
        s
    }
}

pub open spec fn spec_memory_copy_message(e: MemoryCopyError) -> Seq<char> {
    match e {
        MemoryCopyError::InvalidAddressError(addr) => "Invalid address "@ + spec_decimal(
            addr as int,
        ) + " when reading from the target process"@,
        MemoryCopyError::ProcessEnded => "The target process ended during sampling"@,
        MemoryCopyError::Other(s) => s@,
    }
}

pub open spec fn spec_located_chars(found: bool) -> Seq<char> {
    if found {
        "located"@
    } else {
        "missing"@
    }
}

/// The exact text each error renders to.
pub open spec fn spec_error_message(e: Error) -> Seq<char> {
    match e {
        Error::NoSuchProcess(pid) => "Couldn't find process with PID "@ + spec_decimal_signed(
            pid as int,
        ) + ". Is it running?"@,
        Error::PermissionDenied(pid) => "Failed to inspect process "@ + spec_decimal_signed(
            pid as int,
        )
            + " due to a permissions error. If you are running as a normal (non-root) user, try again under `sudo`. If you are running in a container, make sure the container has been granted the SYS_PTRACE capability."@,
        Error::UnsupportedVersion(v) => "The target process's Ruby version "@ + spec_version_chars(
            v,
        ) + " is not supported yet. In the meantime, you can try using `--force-version`"@,
        Error::CouldNotDetectVersion => "Couldn't get the Ruby version in the target process"@,
        Error::AddressesNotFound(v, ct, vm, gs) => "Couldn't locate the Ruby VM state in the target process (version "@
            + spec_version_chars(v) + "; current thread slot "@ + spec_located_chars(ct)
            + "; VM slot "@ + spec_located_chars(vm) + "; symbol table slot "@
            + spec_located_chars(gs) + ")"@,
        Error::MemoryCopy(m) => spec_memory_copy_message(m),
    }
}

/// Renders a memory fault as text.
pub fn memory_copy_message(e: &MemoryCopyError) -> (r: String)
    ensures
        r@ == spec_memory_copy_message(*e),
{
    match e {
        MemoryCopyError::InvalidAddressError(addr) => {
            let mut s = String::from_str("Invalid address ");
            push_decimal(&mut s, *addr as u64);
            s.append(" when reading from the target process");
            proof {
                assert(s@ =~= spec_memory_copy_message(*e));
            }
            s
        },
        MemoryCopyError::ProcessEnded => String::from_str(
            "The target process ended during sampling",
        ),
        MemoryCopyError::Other(text) => text.clone(),
    }
}

/// Renders an error as the text handed to callers.
pub fn error_message(e: &Error) -> (r: String)
    ensures
        r@ == spec_error_message(*e),
{
    match e {
        Error::NoSuchProcess(pid) => {
            let mut s = String::from_str("Couldn't find process with PID ");
            push_decimal_signed(&mut s, *pid as i64);
            s.append(". Is it running?");
            proof {
                assert(s@ =~= spec_error_message(*e));
            }
            s
        },
        Error::PermissionDenied(pid) => {
            let mut s = String::from_str("Failed to inspect process ");
            push_decimal_signed(&mut s, *pid as i64);
            s.append(
                " due to a permissions error. If you are running as a normal (non-root) user, try again under `sudo`. If you are running in a container, make sure the container has been granted the SYS_PTRACE capability.",
            );
            proof {
                assert(s@ =~= spec_error_message(*e));
            }
            s
        },
        Error::UnsupportedVersion(v) => {
            let mut s = String::from_str("The target process's Ruby version ");
            let vt = v.to_text();
            s.append(vt.as_str());
            s.append(" is not supported yet. In the meantime, you can try using `--force-version`");
            proof {
                assert(s@ =~= spec_error_message(*e));
            }
            s
        },
        Error::CouldNotDetectVersion => String::from_str(
            "Couldn't get the Ruby version in the target process",
        ),
        Error::AddressesNotFound(v, ct, vm, gs) => {
            let mut s = String::from_str(
                "Couldn't locate the Ruby VM state in the target process (version ",
            );
            let vt = v.to_text();
            s.append(vt.as_str());
            s.append("; current thread slot ");
            if *ct {
                s.append("located");
            } else {
                s.append("missing");
            }
            s.append("; VM slot ");
            if *vm {
                s.append("located");
            } else {
                s.append("missing");
            }
            s.append("; symbol table slot ");
            if *gs {
                s.append("located");
            } else {
                s.append("missing");
            }
            s.append(")");
            proof {
                assert(s@ =~= spec_error_message(*e));
            }
            s
        },
        Error::MemoryCopy(m) => memory_copy_message(m),
    }
}

} // verus!
