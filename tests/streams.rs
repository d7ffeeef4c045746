use atty::{is, isnt, IsATTY, Stream};
use std::io::IsTerminal;

// Whether a stream is a terminal depends on how the test process was
// started: each test holds `is` to what the platform reports for the same
// stream, so that it passes both in a terminal and with redirected streams.

fn stdin_attached() -> bool {
    std::io::stdin().is_terminal()
}

fn stdout_attached() -> bool {
    std::io::stdout().is_terminal()
}

fn stderr_attached() -> bool {
    std::io::stderr().is_terminal()
}

#[test]
fn lib_is_err() {
    // piped output is no terminal
    if !stderr_attached() {
        assert!(!is(Stream::Stderr))
    } else {
        assert!(is(Stream::Stderr))
    }
}

#[test]
fn lib_is_out() {
    // piped output is no terminal
    if !stdout_attached() {
        assert!(!is(Stream::Stdout))
    } else {
        assert!(is(Stream::Stdout))
    }
}

#[test]
fn lib_is_in() {
    if stdin_attached() {
        assert!(is(Stream::Stdin))
    } else {
        assert!(!is(Stream::Stdin))
    }
}

#[test]
fn is_err() {
    if stderr_attached() {
        assert!(is(Stream::Stderr))
    } else {
        assert!(!is(Stream::Stderr))
    }
}

#[test]
fn is_out() {
    if stdout_attached() {
        assert!(is(Stream::Stdout))
    } else {
        assert!(!is(Stream::Stdout))
    }
}

#[test]
fn is_in() {
    if stdin_attached() {
        assert!(is(Stream::Stdin))
    } else {
        assert!(!is(Stream::Stdin))
    }
}

#[test]
fn isnt_negates_is_on_every_stream() {
    for s in [Stream::Stdin, Stream::Stdout, Stream::Stderr] {
        assert_eq!(isnt(s), !is(s));
    }
}

#[test]
fn repeated_queries_agree() {
    for s in [Stream::Stdin, Stream::Stdout, Stream::Stderr] {
        let first = is(s);
        assert_eq!(is(s), first);
        assert_eq!(s.isatty(), first);
    }
}

#[test]
fn stream_isatty_matches_is() {
    assert_eq!(Stream::Stdout.isatty(), is(Stream::Stdout));
    assert_eq!(Stream::Stdin.isatty(), stdin_attached());
}

#[test]
fn descriptors_are_the_standard_numbers() {
    assert_eq!(Stream::Stdin.descriptor(), 0);
    assert_eq!(Stream::Stdout.descriptor(), 1);
    assert_eq!(Stream::Stderr.descriptor(), 2);
}

#[test]
fn siblings_are_the_two_other_streams() {
    assert_eq!(Stream::Stdin.siblings(), (Stream::Stderr, Stream::Stdout));
    assert_eq!(Stream::Stderr.siblings(), (Stream::Stdin, Stream::Stdout));
    assert_eq!(Stream::Stdout.siblings(), (Stream::Stdin, Stream::Stderr));
}
