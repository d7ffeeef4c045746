//! The standard streams, and how each resolves to what the platform queries.
use vstd::prelude::*;

verus! {

/// One of the three standard streams of a process.
#[derive(Clone, Copy, Debug, PartialEq, Eq, Structural)]
pub enum Stream {
    Stdout,
    Stderr,
    Stdin,
}

/// The descriptor number that a descriptor-based platform gives each stream.
pub open spec fn descriptor_of(stream: Stream) -> i32 {
    match stream {
        Stream::Stdin => 0,
        Stream::Stdout => 1,
        Stream::Stderr => 2,
    }
}

/// The two streams other than `stream`, in the order in which the console
/// platform consults them.
pub open spec fn siblings_of(stream: Stream) -> (Stream, Stream) {
    match stream {
        Stream::Stdin => (Stream::Stderr, Stream::Stdout),
        Stream::Stderr => (Stream::Stdin, Stream::Stdout),
        Stream::Stdout => (Stream::Stdin, Stream::Stderr),
    }
}

impl Stream {
    /// The well-known descriptor number of this stream.
    pub fn descriptor(&self) -> (fd: i32)
        ensures
            fd == descriptor_of(*self),
    {
        match self {
            Stream::Stdin => 0,
            Stream::Stdout => 1,
            Stream::Stderr => 2,
        }
    }

    /// The two other standard streams, whose console state tells a true
    /// negative on this one from a false one.
    pub fn siblings(&self) -> (s: (Stream, Stream))
        ensures
            s == siblings_of(*self),
            s.0 != *self && s.1 != *self && s.0 != s.1,
    {
        match self {
            Stream::Stdin => (Stream::Stderr, Stream::Stdout),
            Stream::Stderr => (Stream::Stdin, Stream::Stdout),
            Stream::Stdout => (Stream::Stdin, Stream::Stderr),
        }
    }
}

} // verus!
