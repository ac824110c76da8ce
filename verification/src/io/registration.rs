//! The readiness state of a registered source, and the protocol by which an
//! I/O operation waits for readiness and retries its system call.

use vstd::prelude::*;
use crate::io::driver::{registry_next, Driver, RegistryOp};
use crate::io::event::{Event, Interest};

verus! {

/// The readiness bits of a source: for each direction, whether I/O may be
/// possible since the system call last answered that it would block. The
/// bits may say too much; the system call decides.
#[derive(Clone, Copy, Debug, PartialEq, Eq, Structural)]
pub struct Ready {
    pub read: bool,
    pub write: bool,
}

impl Ready {
    /// Whether the bits satisfy the interest: each direction that the
    /// interest names is ready.
    pub open spec fn satisfies(self, interest: Interest) -> bool {
        (!interest.readable() || self.read) && (!interest.writable() || self.write)
    }

    /// The bits with the directions of the interest cleared. The other
    /// direction keeps its bit.
    pub open spec fn cleared(self, interest: Interest) -> Ready {
        Ready { read: self.read && !interest.readable(), write: self.write && !interest.writable() }
    }

    /// The bits with the readiness of the event merged in. A bit that is set
    /// stays set.
    pub open spec fn merged(self, event: Event) -> Ready {
        Ready { read: self.read || event.readable, write: self.write || event.writable }
    }

    /// The bits after all the events were merged in, one after the other.
    pub open spec fn merged_all(self, events: Seq<Event>) -> Ready
        decreases events.len(),
    {
        if events.len() == 0 {
            self
        } else {
            self.merged_all(events.drop_last()).merged(events.last())
        }
    }

    /// No direction is ready.
    pub fn new() -> (r: Ready)
        ensures
            r == (Ready { read: false, write: false }),
    {
        Ready { read: false, write: false }
    }

    /// Clears the directions of the interest, after the system call answered
    /// that it would block.
    pub fn clear(&mut self, interest: Interest)
        ensures
            *final(self) == old(self).cleared(interest),
    {
        self.read = self.read && !interest.is_readable();
        self.write = self.write && !interest.is_writable();
    }

    /// Whether the bits satisfy the interest.
    pub fn ready(&self, interest: Interest) -> (r: bool)
        ensures
            r == self.satisfies(interest),
    {
        (!interest.is_readable() || self.read) && (!interest.is_writable() || self.write)
    }

    /// Merges the readiness of the event into the bits.
    pub fn set(&mut self, event: &Event)
        ensures
            *final(self) == old(self).merged(*event),
    {
        self.read = self.read || event.readable;
        self.write = self.write || event.writable;
    }
}

/// What the I/O operation has just observed.
#[derive(Clone, Copy, Debug, PartialEq, Eq, Structural)]
pub enum IoInput {
    /// The operation starts.
    Start,
    /// The event channel handed over this event.
    Received(Event),
    /// The system call answered that it would block.
    Blocked,
}

/// What the I/O operation does next.
#[derive(Clone, Copy, Debug, PartialEq, Eq, Structural)]
pub enum IoAction {
    /// The bits satisfy the interest: make the system call. Any answer but
    /// "would block" is the operation's result.
    Attempt,
    /// The bits do not satisfy the interest: take the next event from the
    /// event channel, or suspend until there is one.
    Receive,
}

/// The bits that an observation leaves behind.
pub open spec fn io_bits(ready: Ready, interest: Interest, input: IoInput) -> Ready {
    match input {
        IoInput::Start => ready,
        IoInput::Received(event) => ready.merged(event),
        IoInput::Blocked => ready.cleared(interest),
    }
}

/// The action that follows on the given bits.
pub open spec fn io_action(ready: Ready, interest: Interest) -> IoAction {
    if ready.satisfies(interest) {
        IoAction::Attempt
    } else {
        IoAction::Receive
    }
}

/// After the system call answered that it would block, the operation waits
/// for a new event: whatever events were merged before the answer, the
/// cleared bits do not satisfy the interest and the next action is to
/// receive.
pub proof fn blocked_needs_new_event(ready: Ready, interest: Interest, earlier: Seq<Event>)
    ensures
        !ready.merged_all(earlier).cleared(interest).satisfies(interest),
        io_action(io_bits(ready.merged_all(earlier), interest, IoInput::Blocked), interest)
            == IoAction::Receive,
{
}

/// To clear one direction loses nothing of the other: the bit of a direction
/// that the interest does not name is the same before and after.
pub proof fn clear_keeps_other_direction(ready: Ready, interest: Interest)
    ensures
        !interest.readable() ==> ready.cleared(interest).read == ready.read,
        !interest.writable() ==> ready.cleared(interest).write == ready.write,
{
}

/// After a clear, the operation attempts the system call again exactly when
/// the events that arrive from then on bring every direction of the interest.
pub proof fn ready_again_iff_new_events(ready: Ready, interest: Interest, later: Seq<Event>)
    ensures
        ready.cleared(interest).merged_all(later).satisfies(interest) <==> {
            &&& interest.readable() ==> exists|i: int|
                0 <= i < later.len() && (#[trigger] later[i]).readable
            &&& interest.writable() ==> exists|i: int|
                0 <= i < later.len() && (#[trigger] later[i]).writable
        },
{
    merged_all_is_union(ready.cleared(interest), later);
}

/// The bits after a run of events: a direction is ready exactly when it was
/// ready before or one of the events brought it.
pub proof fn merged_all_is_union(ready: Ready, events: Seq<Event>)
    ensures
        ready.merged_all(events).read <==> ready.read || exists|i: int|
            0 <= i < events.len() && (#[trigger] events[i]).readable,
        ready.merged_all(events).write <==> ready.write || exists|i: int|
            0 <= i < events.len() && (#[trigger] events[i]).writable,
    decreases events.len(),
{
    if events.len() > 0 {
        let front = events.drop_last();
        let last = events.last();
        merged_all_is_union(ready, front);
        if ready.merged_all(front).read {
            if !ready.read {
                let i = choose|i: int| 0 <= i < front.len() && (#[trigger] front[i]).readable;
                assert(events[i].readable);
            }
        } else if last.readable {
            assert(events[events.len() - 1].readable);
        } else {
            assert forall|i: int| 0 <= i < events.len() implies !(#[trigger] events[i]).readable by {
                if i < front.len() {
                    assert(front[i] == events[i]);
                }
            }
        }
        if ready.merged_all(front).write {
            if !ready.write {
                let i = choose|i: int| 0 <= i < front.len() && (#[trigger] front[i]).writable;
                assert(events[i].writable);
            }
        } else if last.writable {
            assert(events[events.len() - 1].writable);
        } else {
            assert forall|i: int| 0 <= i < events.len() implies !(#[trigger] events[i]).writable by {
                if i < front.len() {
                    assert(front[i] == events[i]);
                }
            }
        }
    }
}

/// The binding of one I/O source to the event driver: the token of the
/// source and its readiness bits.
pub struct Registration {
    token: usize,
    ready: Ready,
}

impl Registration {
    /// The token that the source is registered under.
    pub closed spec fn id(&self) -> usize {
        self.token
    }

    /// The readiness bits.
    pub closed spec fn bits(&self) -> Ready {
        self.ready
    }

    /// Registers a source with the driver: its channel gets a token that no
    /// live registration has, and no direction is ready yet. `None` where
    /// the driver takes no more registrations; the driver then stays as it
    /// is.
    pub fn new(driver: &mut Driver, channel: usize) -> (r: Option<Registration>)
        ensures
            match r {
                Some(reg) => {
                    &&& !old(driver).registry().contains_key(reg.id())
                    &&& final(driver).registry() == registry_next(
                        old(driver).registry(),
                        RegistryOp::Register { token: reg.id(), channel },
                    )
                    &&& reg.bits() == (Ready { read: false, write: false })
                },
                None => final(driver).registry() == old(driver).registry(),
            },
    {
        Registration::from_token(driver.register(channel))
    }

    /// The registration of a source, from what the driver answered when the
    /// source's channel was put into its registry: under the token that the
    /// driver gave, with no direction ready yet; none where the driver gave
    /// no token.
    pub fn from_token(token: Option<usize>) -> (r: Option<Registration>)
        ensures
            r.is_some() <==> token.is_some(),
            r matches Some(reg) ==> token == Some(reg.id()) && reg.bits() == (Ready {
                read: false,
                write: false,
            }),
    {
        match token {
            Some(token) => Some(Registration { token, ready: Ready::new() }),
            None => None,
        }
    }

    /// The token that the source is registered under.
    pub fn token(&self) -> (t: usize)
        ensures
            t == self.id(),
    {
        self.token
    }

    /// The readiness bits.
    pub fn readiness(&self) -> (r: Ready)
        ensures
            r == self.bits(),
    {
        self.ready
    }

    /// Takes the source out of the driver's registry, whatever events are
    /// still on their way to it. Returns whether the token was registered.
    pub fn deregister(&self, driver: &mut Driver) -> (removed: bool)
        ensures
            removed == old(driver).registry().contains_key(self.id()),
            final(driver).registry() == registry_next(
                old(driver).registry(),
                RegistryOp::Deregister { token: self.id() },
            ),
    {
        driver.deregister(self.token)
    }

    /// Clears the readiness of the directions that the interest names.
    pub fn clear_readiness(&mut self, interest: Interest)
        ensures
            final(self).id() == old(self).id(),
            final(self).bits() == old(self).bits().cleared(interest),
    {
        self.ready.clear(interest);
    }

    /// One step of an I/O operation with the given interest. Takes what the
    /// operation has just observed into the bits (an event is merged; on
    /// "would block" the directions of the interest are cleared) and says
    /// what to do next: attempt the system call if the bits now satisfy the
    /// interest, receive from the event channel if they do not.
    pub fn advance(&mut self, interest: Interest, input: IoInput) -> (action: IoAction)
        ensures
            final(self).id() == old(self).id(),
            final(self).bits() == io_bits(old(self).bits(), interest, input),
            action == io_action(final(self).bits(), interest),
    {
        match input {
            IoInput::Start => {},
            IoInput::Received(event) => {
                self.ready.set(&event);
            },
            IoInput::Blocked => {
                self.ready.clear(interest);
            },
        }
        if self.ready.ready(interest) {
            IoAction::Attempt
        } else {
            IoAction::Receive
        }
    }
}

} // verus!
