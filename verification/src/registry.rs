//! The capability interface onto the per-version structural decoders. One
//! decoder pair exists per supported interpreter version; they translate raw
//! bytes of the target's address space into stack frames. They are external
//! collaborators: this library chooses which version to ask for and decides
//! what to do with the outcome, and callers supply the implementation.

use vstd::prelude::*;
use crate::process::{MapInfo, TargetProcess};
use crate::types::{MemoryCopyError, Pid, StackTrace};
use crate::version::RubyVersion;

verus! {

/// Version-specific readers of the target's memory image.
pub trait VersionReaderRegistry {
    /// Heuristic: does `value`, found in the slot at address `slot`, look
    /// like a pointer to a live Ruby thread structure of this version?
    fn is_maybe_thread(
        &self,
        version: &RubyVersion,
        value: usize,
        slot: usize,
        process: &TargetProcess,
        maps: &Vec<MapInfo>,
    ) -> bool;

    /// Heuristic: does `value`, found in the slot at address `slot`, look
    /// like a pointer to the Ruby VM root structure of this version?
    fn is_maybe_vm(
        &self,
        version: &RubyVersion,
        value: usize,
        slot: usize,
        process: &TargetProcess,
        maps: &Vec<MapInfo>,
    ) -> bool;

    /// Locates the slot of the interned-symbol table (`ruby_global_symbols`)
    /// for this version, from whatever symbol information the embedder has.
    /// Absence is fine: older interpreters lack the table, and dependent
    /// features degrade gracefully without it.
    fn global_symbols_address(
        &self,
        version: &RubyVersion,
        process: &TargetProcess,
        maps: &Vec<MapInfo>,
    ) -> Option<usize>;

    /// Walks the target's call-frame chain once and returns the frames, no
    /// frames when there is nothing to report, or the memory fault it ran
    /// into.
    fn get_stack_trace(
        &self,
        version: &RubyVersion,
        current_thread_addr_location: usize,
        ruby_vm_addr_location: usize,
        global_symbols_addr_location: Option<usize>,
        process: &TargetProcess,
        pid: Pid,
        on_cpu: bool,
    ) -> Result<Option<StackTrace>, MemoryCopyError>;
}

} // verus!
