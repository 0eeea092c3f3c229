use rbspy::initialize::get_stack_trace_function;
use rbspy::types::{error_message, Error};
use rbspy::version::{is_supported, parse_version, RubyVersion};

fn v(major: u32, minor: u32, patch: u32) -> RubyVersion {
    RubyVersion { major, minor, patch }
}

#[test]
fn parses_plain_triples() {
    assert_eq!(parse_version(&b"2.7.0".to_vec()), Some(v(2, 7, 0)));
    assert_eq!(parse_version(&b"3.1.2".to_vec()), Some(v(3, 1, 2)));
    assert_eq!(parse_version(&b"1.9.3".to_vec()), Some(v(1, 9, 3)));
    assert_eq!(parse_version(&b"2.6.10".to_vec()), Some(v(2, 6, 10)));
}

#[test]
fn parses_nul_terminated_buffer() {
    // the 15-byte copy out of the target: triple, NUL, then garbage
    let buf = b"3.0.5\0abcdefghi".to_vec();
    assert_eq!(parse_version(&buf), Some(v(3, 0, 5)));
}

#[test]
fn rejects_malformed_spellings() {
    assert_eq!(parse_version(&b"".to_vec()), None);
    assert_eq!(parse_version(&b"2.7".to_vec()), None);
    assert_eq!(parse_version(&b"2.7.".to_vec()), None);
    assert_eq!(parse_version(&b".7.0".to_vec()), None);
    assert_eq!(parse_version(&b"2.7.0.1".to_vec()), None);
    assert_eq!(parse_version(&b"2.7.0x".to_vec()), None);
    assert_eq!(parse_version(&b"a.b.c".to_vec()), None);
    assert_eq!(parse_version(&b"2..0".to_vec()), None);
}

#[test]
fn leading_zeros_are_digits_too() {
    // the version grammar admits any digit run in a component
    assert_eq!(parse_version(&b"2.07.0".to_vec()), Some(v(2, 7, 0)));
    assert_eq!(parse_version(&b"03.0.0".to_vec()), Some(v(3, 0, 0)));
}

#[test]
fn orders_versions() {
    assert!(v(3, 0, 0).at_least(3, 0, 0));
    assert!(v(3, 1, 2).at_least(3, 0, 0));
    assert!(!v(2, 7, 7).at_least(3, 0, 0));
    assert!(v(2, 7, 7).at_least(2, 7, 0));
}

#[test]
fn renders_versions() {
    assert_eq!(v(2, 7, 0).to_text(), "2.7.0");
    assert_eq!(v(3, 1, 12).to_text(), "3.1.12");
}

#[test]
fn supported_set_edges() {
    assert!(is_supported(&v(1, 9, 1)));
    assert!(!is_supported(&v(1, 9, 0)));
    assert!(is_supported(&v(2, 0, 0)));
    assert!(!is_supported(&v(2, 0, 1)));
    assert!(is_supported(&v(2, 6, 10)));
    assert!(!is_supported(&v(2, 6, 11)));
    assert!(is_supported(&v(2, 7, 7)));
    assert!(is_supported(&v(3, 0, 5)));
    assert!(!is_supported(&v(3, 0, 6)));
    assert!(is_supported(&v(3, 1, 3)));
    assert!(!is_supported(&v(3, 1, 4)));
    assert!(!is_supported(&v(3, 2, 0)));
    assert!(!is_supported(&v(4, 0, 0)));
}

#[test]
fn dispatcher_returns_reader_for_every_supported_version() {
    // every supported version yields a reader bound to that version
    let mut supported: Vec<RubyVersion> = Vec::new();
    for patch in 1..=3 {
        supported.push(v(1, 9, patch));
    }
    supported.push(v(2, 0, 0));
    for (minor, max_patch) in [(1, 10), (2, 10), (3, 8), (4, 10), (5, 9), (6, 10), (7, 7)] {
        for patch in 0..=max_patch {
            supported.push(v(2, minor, patch));
        }
    }
    for (minor, max_patch) in [(0, 5), (1, 3)] {
        for patch in 0..=max_patch {
            supported.push(v(3, minor, patch));
        }
    }
    for ver in supported {
        let reader = get_stack_trace_function(&ver).expect("supported version must dispatch");
        assert_eq!(reader.version, ver);
    }
}

#[test]
fn dispatcher_rejects_unsupported_versions_carrying_them() {
    for ver in [v(9, 9, 9), v(3, 2, 0), v(2, 8, 0), v(0, 0, 0)] {
        match get_stack_trace_function(&ver) {
            Err(Error::UnsupportedVersion(got)) => assert_eq!(got, ver),
            other => panic!("expected UnsupportedVersion, got {:?}", other),
        }
    }
    let msg = error_message(&Error::UnsupportedVersion(v(3, 2, 0)));
    assert!(msg.contains("3.2.0"));
    assert!(msg.contains("--force-version"));
}
