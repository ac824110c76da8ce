//! The plain values that the readiness protocol works on: the directions a
//! caller is interested in, and the readiness events of the poller.

use vstd::prelude::*;

verus! {

/// The directions of I/O that a caller waits for. An interest names at least
/// one direction.
#[derive(Clone, Copy, Debug, PartialEq, Eq, Structural)]
pub enum Interest {
    Readable,
    Writable,
    Both,
}

impl Interest {
    /// Whether the interest names the read direction.
    pub open spec fn readable(self) -> bool {
        self != Interest::Writable
    }

    /// Whether the interest names the write direction.
    pub open spec fn writable(self) -> bool {
        self != Interest::Readable
    }

    /// Whether the interest names the read direction.
    pub fn is_readable(&self) -> (r: bool)
        ensures
            r == self.readable(),
    {
        match self {
            Interest::Writable => false,
            _ => true,
        }
    }

    /// Whether the interest names the write direction.
    pub fn is_writable(&self) -> (r: bool)
        ensures
            r == self.writable(),
    {
        match self {
            Interest::Readable => false,
            _ => true,
        }
    }

    /// The interest with the given directions, if there is any.
    pub fn from_directions(readable: bool, writable: bool) -> (i: Option<Interest>)
        ensures
            i.is_some() <==> readable || writable,
            i matches Some(interest) ==> interest.readable() == readable && interest.writable()
                == writable,
    {
        if readable && writable {
            Some(Interest::Both)
        } else if readable {
            Some(Interest::Readable)
        } else if writable {
            Some(Interest::Writable)
        } else {
            None
        }
    }
}

/// A readiness event of the poller: the token of the source it is about and
/// the directions that the source became ready for.
#[derive(Clone, Copy, Debug, PartialEq, Eq, Structural)]
pub struct Event {
    pub token: usize,
    pub readable: bool,
    pub writable: bool,
}

} // verus!
