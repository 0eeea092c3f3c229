//! Declarations of the outside types that carry the OS-level capabilities:
//! the process handle, its threads, the scoped freeze, and one memory map.

use vstd::prelude::*;

verus! {

#[verifier::external_type_specification]
#[verifier::external_body]
pub struct ExProcess(remoteprocess::Process);

#[verifier::external_type_specification]
#[verifier::external_body]
pub struct ExThread(remoteprocess::Thread);

#[verifier::external_type_specification]
#[verifier::external_body]
pub struct ExLock(remoteprocess::Lock);

#[verifier::external_type_specification]
#[verifier::external_body]
pub struct ExMapRange(proc_maps::MapRange);

} // verus!
