use hello_bridge::{greeting_message, run_bridge, Transcript};

#[test]
fn greeting_text_is_fixed() {
    assert_eq!(greeting_message(), "Hello from Rust!");
}

#[test]
fn one_call_writes_one_greeting_line() {
    let mut t = Transcript::new();
    t.print_simple_log();
    assert_eq!(t.lines().len(), 1);
    assert_eq!(t.lines()[0], "Hello from Rust!");
}

#[test]
fn repeated_calls_write_lines_in_order() {
    let mut t = Transcript::new();
    t.print_simple_log();
    t.print_simple_log();
    t.print_simple_log();
    let lines = t.lines();
    assert_eq!(lines.len(), 3);
    for line in lines {
        assert_eq!(line, "Hello from Rust!");
    }
}

#[test]
fn fresh_transcript_is_empty() {
    let t = Transcript::new();
    assert!(t.lines().is_empty());
}

#[test]
fn run_bridge_matches_call_count() {
    let t = run_bridge(5);
    assert_eq!(t.lines().len(), 5);
    for line in t.lines() {
        assert_eq!(line, "Hello from Rust!");
    }
    let none = run_bridge(0);
    assert!(none.lines().is_empty());
}
