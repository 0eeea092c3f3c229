use rbspy::abi::{error_payload, frame_line, payload_fits, shorten_path, trace_payload};
use rbspy::text::find;
use rbspy::types::{FrameKind, StackFrame};

fn frame(name: &str, path: &str, line: u32) -> StackFrame {
    StackFrame {
        method_name: name.to_string(),
        path: path.to_string(),
        line,
        kind: FrameKind::Ruby,
    }
}

#[test]
fn find_first_occurrence() {
    assert_eq!(find("abcabc", "bc"), Some(1));
    assert_eq!(find("abcabc", "cb"), None);
    assert_eq!(find("abc", ""), Some(0));
    assert_eq!(find("", "a"), None);
}

#[test]
fn shorten_strips_cwd_prefix_and_separator() {
    assert_eq!(shorten_path("/home/me/app/lib/a.rb", "/home/me/app"), "lib/a.rb");
}

#[test]
fn shorten_starts_at_gems() {
    assert_eq!(
        shorten_path("/opt/rubies/3.1.2/gems/rails-7.0/lib/rails.rb", "/work"),
        "gems/rails-7.0/lib/rails.rb"
    );
}

#[test]
fn shorten_strips_through_ruby_token() {
    assert_eq!(shorten_path("/usr/lib/ruby/3.0.0/set.rb", "/work"), "set.rb");
}

#[test]
fn shorten_keeps_unmatched_paths() {
    assert_eq!(shorten_path("/srv/app/main.rb", "/work"), "/srv/app/main.rb");
    assert_eq!(shorten_path("/srv/app/main.rb", ""), "/srv/app/main.rb");
}

#[test]
fn shorten_falls_through_when_cwd_ends_the_path() {
    // the working directory sits at the very end: rule one cannot apply
    assert_eq!(shorten_path("/usr/lib/ruby/x/home", "/home"), "home");
}

#[test]
fn frame_line_renders_method_path_line() {
    let f = frame("Object#run", "/home/me/app/lib/a.rb", 42);
    assert_eq!(frame_line(&f, "/home/me/app"), "Object#run - lib/a.rb:42");
}

#[test]
fn payload_joins_frames_outermost_first() {
    // frames arrive innermost first; the payload leads with the outermost
    let frames = vec![
        frame("inner", "/x/a.rb", 3),
        frame("middle", "/x/b.rb", 2),
        frame("outer", "/x/c.rb", 1),
    ];
    assert_eq!(
        trace_payload(&frames, ""),
        "outer - /x/c.rb:1;middle - /x/b.rb:2;inner - /x/a.rb:3"
    );
}

#[test]
fn payload_of_single_frame_has_no_separator() {
    let frames = vec![frame("only", "/x/a.rb", 7)];
    assert_eq!(trace_payload(&frames, ""), "only - /x/a.rb:7");
}

#[test]
fn payload_of_no_frames_is_empty() {
    let frames: Vec<StackFrame> = vec![];
    assert_eq!(trace_payload(&frames, ""), "");
}

#[test]
fn error_payload_fits_exactly() {
    let (text, code) = error_payload("boom", 4);
    assert_eq!(text.as_deref(), Some("boom"));
    assert_eq!(code, -4);
}

#[test]
fn error_payload_too_small_uses_notice() {
    let (text, code) = error_payload("a rather long error message", 26);
    assert_eq!(text.as_deref(), Some("error buffer is too small"));
    assert_eq!(code, -25);
}

#[test]
fn error_payload_zero_length_buffer_writes_nothing() {
    let (text, code) = error_payload("boom", 0);
    assert_eq!(text, None);
    assert_eq!(code, -25);
}

#[test]
fn error_payload_one_short() {
    let (text, code) = error_payload("boom", 3);
    assert_eq!(text, None);
    assert_eq!(code, -25);
}

#[test]
fn payload_fit_boundaries() {
    // strictly smaller buffer: refused; exactly equal: accepted
    assert!(!payload_fits("abcd", 3));
    assert!(payload_fits("abcd", 4));
    assert!(payload_fits("abcd", 5));
    assert!(!payload_fits("abcd", -1));
    assert!(payload_fits("", 0));
}
