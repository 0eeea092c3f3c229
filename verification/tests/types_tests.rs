use rbspy::types::{error_message, memory_copy_message, Error, MemoryCopyError};
use rbspy::version::RubyVersion;

#[test]
fn no_such_process_message_names_the_pid() {
    let msg = error_message(&Error::NoSuchProcess(10000));
    assert_eq!(msg, "Couldn't find process with PID 10000. Is it running?");
}

#[test]
fn negative_pids_render_signed() {
    let msg = error_message(&Error::NoSuchProcess(-3));
    assert!(msg.contains("-3"));
}

#[test]
fn addresses_not_found_message_carries_the_diagnostic() {
    let v = RubyVersion { major: 3, minor: 0, patch: 1 };
    let msg = error_message(&Error::AddressesNotFound(v, true, false, false));
    assert!(msg.contains("3.0.1"));
    assert!(msg.contains("current thread slot located"));
    assert!(msg.contains("VM slot missing"));
    assert!(msg.contains("symbol table slot missing"));
}

#[test]
fn memory_fault_messages() {
    assert_eq!(
        memory_copy_message(&MemoryCopyError::InvalidAddressError(64)),
        "Invalid address 64 when reading from the target process"
    );
    assert_eq!(
        memory_copy_message(&MemoryCopyError::ProcessEnded),
        "The target process ended during sampling"
    );
    assert_eq!(
        error_message(&Error::MemoryCopy(MemoryCopyError::Other("zap".to_string()))),
        "zap"
    );
}

#[test]
fn version_detection_failure_message() {
    let msg = error_message(&Error::CouldNotDetectVersion);
    assert!(msg.contains("Ruby version"));
}
