use std::cell::RefCell;
use std::collections::VecDeque;

use rbspy::initialize::{
    initialize, should_retry_bootstrap, surfaced_error, triggers_reinit, StackTraceGetter,
    VersionReader,
};
use rbspy::process::{MapInfo, TargetProcess};
use rbspy::registry::VersionReaderRegistry;
use rbspy::snapshot::snapshot;
use rbspy::types::{error_message, Error, FrameKind, MemoryCopyError, Pid, StackFrame, StackTrace};
use rbspy::version::RubyVersion;

type Outcome = Result<Option<StackTrace>, MemoryCopyError>;

/// A decoder registry that replays scripted outcomes, standing in for the
/// per-version structural decoders.
struct Scripted {
    outcomes: RefCell<VecDeque<Outcome>>,
}

impl Scripted {
    fn new(outcomes: Vec<Outcome>) -> Scripted {
        Scripted { outcomes: RefCell::new(outcomes.into_iter().collect()) }
    }
}

impl VersionReaderRegistry for Scripted {
    fn is_maybe_thread(
        &self,
        _version: &RubyVersion,
        _value: usize,
        _slot: usize,
        _process: &TargetProcess,
        _maps: &Vec<MapInfo>,
    ) -> bool {
        false
    }

    fn is_maybe_vm(
        &self,
        _version: &RubyVersion,
        _value: usize,
        _slot: usize,
        _process: &TargetProcess,
        _maps: &Vec<MapInfo>,
    ) -> bool {
        false
    }

    fn global_symbols_address(
        &self,
        _version: &RubyVersion,
        _process: &TargetProcess,
        _maps: &Vec<MapInfo>,
    ) -> Option<usize> {
        None
    }

    fn get_stack_trace(
        &self,
        _version: &RubyVersion,
        _current_thread_addr_location: usize,
        _ruby_vm_addr_location: usize,
        _global_symbols_addr_location: Option<usize>,
        _process: &TargetProcess,
        _pid: Pid,
        _on_cpu: bool,
    ) -> Outcome {
        self.outcomes
            .borrow_mut()
            .pop_front()
            .unwrap_or(Err(MemoryCopyError::Other("script exhausted".to_string())))
    }
}

fn own_pid() -> Pid {
    nix::unistd::getpid().as_raw()
}

fn frame(name: &str, path: &str, line: u32) -> StackFrame {
    StackFrame {
        method_name: name.to_string(),
        path: path.to_string(),
        line,
        kind: FrameKind::Ruby,
    }
}

fn bare_trace(frames: Vec<StackFrame>) -> StackTrace {
    StackTrace { pid: None, on_cpu: None, trace: frames }
}

/// A getter onto the test's own process, with a scripted decoder registry.
fn getter_for_self(on_cpu: bool, outcomes: Vec<Outcome>) -> StackTraceGetter<Scripted> {
    let pid = own_pid();
    let process = TargetProcess::new(pid).expect("the test process itself must open");
    StackTraceGetter {
        process,
        current_thread_addr_location: 0,
        ruby_vm_addr_location: 0x1000,
        global_symbols_addr_location: None,
        reader: VersionReader { version: RubyVersion { major: 3, minor: 1, patch: 2 } },
        registry: Scripted::new(outcomes),
        reinit_count: 0,
        lock_process: false,
        force_version: None,
        on_cpu,
    }
}

#[test]
fn test_get_nonexistent_process() {
    assert!(TargetProcess::new(10000).is_err());
}

#[test]
fn successful_sample_is_stamped_with_the_target_pid() {
    let frames = vec![frame("main", "/x/loop.rb", 3)];
    let mut getter = getter_for_self(false, vec![Ok(Some(bare_trace(frames)))]);
    let trace = getter.get_trace().expect("scripted sample").expect("has frames");
    assert_eq!(trace.pid, Some(own_pid()));
    assert!(!trace.trace.is_empty());
    for f in &trace.trace {
        assert!(!f.method_name.is_empty());
    }
    assert_eq!(getter.reinit_count, 0);
}

#[test]
fn two_samples_of_a_steady_target_share_their_top_frame() {
    let frames = vec![frame("busy", "/x/loop.rb", 2), frame("<main>", "/x/loop.rb", 9)];
    let mut getter = getter_for_self(
        false,
        vec![Ok(Some(bare_trace(frames.clone()))), Ok(Some(bare_trace(frames)))],
    );
    let first = getter.get_trace().unwrap().unwrap();
    let second = getter.get_trace().unwrap().unwrap();
    assert_eq!(first.trace[0].method_name, second.trace[0].method_name);
}

#[test]
fn ordinary_memory_fault_surfaces_without_reinit() {
    let mut getter = getter_for_self(
        false,
        vec![Err(MemoryCopyError::InvalidAddressError(0xdead))],
    );
    let r = getter.get_trace();
    assert!(matches!(
        r,
        Err(Error::MemoryCopy(MemoryCopyError::InvalidAddressError(0xdead)))
    ));
    assert_eq!(getter.reinit_count, 0);
}

#[test]
fn fault_on_the_thread_slot_reinitializes() {
    // the scripted fault names the current-thread slot itself, so the getter
    // re-runs the bootstrap; the test process runs no Ruby, so that fails
    // and the count stays at zero
    let mut getter = getter_for_self(
        false,
        vec![Err(MemoryCopyError::InvalidAddressError(0))],
    );
    let r = getter.get_trace();
    assert!(matches!(r, Err(Error::CouldNotDetectVersion)));
    assert_eq!(getter.reinit_count, 0);
}

#[test]
fn on_cpu_gate_lets_a_running_target_through() {
    // the test process is on a CPU at this very moment
    let frames = vec![frame("main", "/x/loop.rb", 3)];
    let mut getter = getter_for_self(true, vec![Ok(Some(bare_trace(frames)))]);
    let trace = getter.get_trace().expect("gate passes").expect("has frames");
    assert_eq!(trace.pid, Some(own_pid()));
}

#[test]
fn empty_sample_passes_through() {
    let mut getter = getter_for_self(false, vec![Ok(None)]);
    assert!(matches!(getter.get_trace(), Ok(None)));
}

#[test]
fn init_on_unused_pid_reports_it() {
    let r = initialize(10000, false, None, false, Scripted::new(vec![]));
    match r {
        Err(Error::NoSuchProcess(pid)) => {
            assert_eq!(pid, 10000);
            let msg = error_message(&Error::NoSuchProcess(pid));
            assert!(msg.contains("10000"));
        },
        other => panic!("expected NoSuchProcess, got {:?}", other.err()),
    }
}

#[test]
fn init_on_protected_pid_names_the_remedy() {
    // the message every permission failure carries
    let msg = error_message(&Error::PermissionDenied(1));
    assert!(msg.contains("1"));
    assert!(msg.contains("permissions"));
    assert!(msg.contains("sudo"));
    assert!(msg.contains("SYS_PTRACE"));

    if nix::unistd::Uid::effective().is_root() {
        // pid 1 is readable for root; the scenario needs an unprivileged run
        return;
    }
    match initialize(1, false, None, false, Scripted::new(vec![])) {
        Err(Error::PermissionDenied(pid)) => assert_eq!(pid, 1),
        _ => {
            // this environment lets the test user inspect pid 1 (containers
            // do); the protected-pid scenario does not arise here
        },
    }
}

#[test]
fn forced_version_never_reports_detection_failure() {
    let forced = RubyVersion { major: 2, minor: 7, patch: 0 };
    let r = snapshot(10000, false, Some(forced), false, Scripted::new(vec![]));
    match r {
        Err(e) => {
            assert!(!matches!(e, Error::CouldNotDetectVersion));
            assert!(matches!(e, Error::NoSuchProcess(10000)));
        },
        Ok(_) => panic!("an unused pid cannot be sampled"),
    }
}

#[test]
fn reinit_trigger_is_exactly_the_thread_slot() {
    assert!(triggers_reinit(&MemoryCopyError::InvalidAddressError(0x40), 0x40));
    assert!(!triggers_reinit(&MemoryCopyError::InvalidAddressError(0x41), 0x40));
    assert!(!triggers_reinit(&MemoryCopyError::ProcessEnded, 0x40));
    assert!(!triggers_reinit(&MemoryCopyError::Other("x".to_string()), 0x40));
}

#[test]
fn dead_target_collapses_to_process_ended() {
    let e = MemoryCopyError::InvalidAddressError(0x41);
    assert!(matches!(
        surfaced_error(e.clone(), false),
        Error::MemoryCopy(MemoryCopyError::ProcessEnded)
    ));
    assert!(matches!(
        surfaced_error(e, true),
        Error::MemoryCopy(MemoryCopyError::InvalidAddressError(0x41))
    ));
}

#[test]
fn registry_binds_one_getter_per_pid() {
    let mut reg: rbspy::abi::AbiRegistry<Scripted> = rbspy::abi::AbiRegistry::new();
    let pid = own_pid();
    reg.insert(pid, getter_for_self(false, vec![]));
    reg.insert(pid, getter_for_self(true, vec![]));
    let g = reg.take(pid).expect("an entry for the pid");
    assert!(g.on_cpu, "the second insert replaced the first");
    assert!(reg.take(pid).is_none());
    assert!(reg.take(12345).is_none());
}

#[test]
fn ill_formed_samples_count_as_no_sample() {
    // a decoder handing back no frames, or an unnamed frame, yields no sample
    let mut getter = getter_for_self(false, vec![Ok(Some(bare_trace(vec![])))]);
    assert!(matches!(getter.get_trace(), Ok(None)));

    let unnamed = vec![frame("", "/x/a.rb", 1)];
    let mut getter = getter_for_self(false, vec![Ok(Some(bare_trace(unnamed)))]);
    assert!(matches!(getter.get_trace(), Ok(None)));
}

#[test]
fn bootstrap_retry_decision() {
    let v = RubyVersion { major: 3, minor: 0, patch: 1 };
    assert!(should_retry_bootstrap(&Error::CouldNotDetectVersion, 0));
    assert!(should_retry_bootstrap(&Error::AddressesNotFound(v, true, false, false), 99));
    assert!(!should_retry_bootstrap(&Error::CouldNotDetectVersion, 100));
    assert!(!should_retry_bootstrap(&Error::NoSuchProcess(7), 0));
    assert!(!should_retry_bootstrap(&Error::PermissionDenied(7), 0));
    assert!(!should_retry_bootstrap(&Error::UnsupportedVersion(v), 0));
    assert!(!should_retry_bootstrap(
        &Error::MemoryCopy(MemoryCopyError::ProcessEnded),
        0
    ));
}

#[test]
fn sample_without_reinit_keeps_the_address_triple() {
    let mut getter = getter_for_self(
        false,
        vec![Err(MemoryCopyError::InvalidAddressError(0xdead))],
    );
    let cta = getter.current_thread_addr_location;
    let vma = getter.ruby_vm_addr_location;
    let gsa = getter.global_symbols_addr_location;
    let _ = getter.get_trace();
    assert_eq!(getter.reinit_count, 0);
    assert_eq!(getter.current_thread_addr_location, cta);
    assert_eq!(getter.ruby_vm_addr_location, vma);
    assert_eq!(getter.global_symbols_addr_location, gsa);
}

#[test]
fn registry_keeps_entries_for_other_pids() {
    let mut reg: rbspy::abi::AbiRegistry<Scripted> = rbspy::abi::AbiRegistry::new();
    let pid = own_pid();
    let other = pid + 1;
    reg.insert(pid, getter_for_self(false, vec![]));
    reg.insert(other, getter_for_self(true, vec![]));
    // removing one pid leaves the other bound, and cleanup is idempotent
    assert!(reg.take(pid).is_some());
    assert!(reg.take(pid).is_none());
    let g = reg.take(other).expect("the other pid's entry survives");
    assert!(g.on_cpu);
}
