//! Answers one question about a standard stream or a handle: is it a
//! terminal, as opposed to a file, a pipe or a socket?
//!
//! Every query that fails counts as "not a terminal": the answer is a plain
//! `bool`, and cannot tell a pipe from a handle that could not be examined.
use vstd::prelude::*;
use std::io::IsTerminal;

pub mod console;
pub mod pty_name;
pub mod stream;

pub use stream::Stream;

verus! {

/// A handle-bearing value that can say whether it is a terminal; `T` is the
/// kind of native handle that it carries.
pub trait IsATTY<T> {
    fn isatty(&self) -> bool;
}

/// Relies on `std::io::IsTerminal` for standard input: asks the platform,
/// so the answer depends on how the process was started.
#[verifier::external_body]
fn stdin_is_terminal() -> (r: bool) {
    std::io::stdin().is_terminal()
}

/// Relies on `std::io::IsTerminal` for standard output: asks the platform,
/// so the answer depends on how the process was started.
#[verifier::external_body]
fn stdout_is_terminal() -> (r: bool) {
    std::io::stdout().is_terminal()
}

/// Relies on `std::io::IsTerminal` for standard error: asks the platform,
/// so the answer depends on how the process was started.
#[verifier::external_body]
fn stderr_is_terminal() -> (r: bool) {
    std::io::stderr().is_terminal()
}

/// Whether `stream` is attached to a terminal at the instant of the call.
/// The answer is never cached: a stream may be redirected between calls.
pub fn is(stream: Stream) -> bool {
    match stream {
        Stream::Stdout => stdout_is_terminal(),
        Stream::Stderr => stderr_is_terminal(),
        Stream::Stdin => stdin_is_terminal(),
    }
}

/// Whether `stream` is not attached to a terminal: the negation of a call
/// of `is`.
pub fn isnt(stream: Stream) -> bool {
    let attached = is(stream);
    !attached
}

impl IsATTY<Stream> for Stream {
    fn isatty(&self) -> bool {
        is(*self)
    }
}

} // verus!
