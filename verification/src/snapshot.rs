//! One-shot sampling: bootstrap a trace getter for a pid and take a single
//! stack trace from it.

use vstd::prelude::*;
use crate::initialize::initialize;
use crate::registry::VersionReaderRegistry;
use crate::types::{spec_trace_wf, Error, Pid, StackTrace};
use crate::version::RubyVersion;

verus! {

/// Captures a single trace from the process belonging to `pid`: one
/// bootstrap pass, then one sample.
pub fn snapshot<R: VersionReaderRegistry>(
    pid: Pid,
    lock_process: bool,
    force_version: Option<RubyVersion>,
    on_cpu: bool,
    registry: R,
) -> (r: Result<Option<StackTrace>, Error>)
    ensures
        r matches Ok(Some(t)) ==> t.pid == Some(pid) && spec_trace_wf(t),
        r matches Err(e) ==> (force_version matches Some(_) ==> e
            != Error::CouldNotDetectVersion),
{
    let mut getter = initialize(pid, lock_process, force_version, on_cpu, registry)?;
    getter.get_trace()
}

} // verus!
