//! The parker: lets a thread sleep until it is notified, without losing a
//! notification that arrives before the thread goes to sleep.

use vstd::prelude::*;

verus! {

/// The state word of a parker.
#[derive(Clone, Copy, Debug, PartialEq, Eq, Structural)]
pub enum ParkState {
    /// No thread sleeps and no notification is stored.
    Empty,
    /// The owning thread sleeps, or is about to.
    Parked,
    /// A notification is stored that no `park` has consumed yet.
    Notified,
}

/// What the parking thread does after an attempt to park.
#[derive(Clone, Copy, Debug, PartialEq, Eq, Structural)]
pub enum ParkStep {
    /// A notification was consumed: `park` returns.
    Resume,
    /// No notification is stored: wait on the condition variable, then
    /// attempt again with `Parker::park_wake`.
    Wait,
}

/// An operation on a parker, as it occurs in a history of the parker.
#[derive(Clone, Copy, Debug, PartialEq, Eq, Structural)]
pub enum ParkOp {
    /// The owner enters `park`.
    Park,
    /// The owner woke from the condition variable and looks again.
    Wake,
    /// Some thread calls `unpark`.
    Unpark,
}

/// The state that an operation leaves behind.
pub open spec fn park_next(s: ParkState, op: ParkOp) -> ParkState {
    match op {
        ParkOp::Unpark => ParkState::Notified,
        ParkOp::Park => match s {
            ParkState::Notified => ParkState::Empty,
            _ => ParkState::Parked,
        },
        ParkOp::Wake => match s {
            ParkState::Notified => ParkState::Empty,
            _ => s,
        },
    }
}

/// Whether an attempt to park, made in state `s`, lets `park` return.
pub open spec fn park_resumes(s: ParkState, op: ParkOp) -> bool {
    op != ParkOp::Unpark && s == ParkState::Notified
}

/// Whether an `unpark`, made in state `s`, signals the condition variable.
pub open spec fn unpark_signals(s: ParkState) -> bool {
    s == ParkState::Parked
}

/// The state of a parker that started empty and went through `ops`.
pub open spec fn park_run(ops: Seq<ParkOp>) -> ParkState
    decreases ops.len(),
{
    if ops.len() == 0 {
        ParkState::Empty
    } else {
        park_next(park_run(ops.drop_last()), ops.last())
    }
}

/// Whether the operation at position `i` of the history is an attempt to
/// park that lets `park` return.
pub open spec fn resumes_at(ops: Seq<ParkOp>, i: int) -> bool {
    0 <= i < ops.len() && park_resumes(park_run(ops.take(i)), ops[i])
}

/// Whether position `j` holds an `unpark` that no attempt to park before
/// position `i` has consumed.
pub open spec fn unconsumed_unpark(ops: Seq<ParkOp>, j: int, i: int) -> bool {
    &&& 0 <= j < i <= ops.len()
    &&& ops[j] == ParkOp::Unpark
    &&& forall|k: int| j < k < i ==> !resumes_at(ops, k)
}

/// The state after a history is `Notified` exactly when the history holds an
/// `unpark` that no later attempt to park has consumed.
pub proof fn notified_iff_unconsumed_unpark(ops: Seq<ParkOp>, i: int)
    requires
        0 <= i <= ops.len(),
    ensures
        park_run(ops.take(i)) == ParkState::Notified <==> exists|j: int|
            unconsumed_unpark(ops, j, i),
    decreases i,
{
    if i == 0 {
        assert(ops.take(0).len() == 0);
    } else {
        let h = i - 1;
        notified_iff_unconsumed_unpark(ops, h);
        assert(ops.take(i).drop_last() =~= ops.take(h));
        assert(ops.take(i).last() == ops[h]);
        let before = park_run(ops.take(h));
        assert(park_run(ops.take(i)) == park_next(before, ops[h]));
        if ops[h] == ParkOp::Unpark {
            assert(unconsumed_unpark(ops, h, i));
        } else if before == ParkState::Notified {
            assert(resumes_at(ops, h));
            assert forall|j: int| !unconsumed_unpark(ops, j, i) by {
                if 0 <= j < h && ops[j] == ParkOp::Unpark {
                    assert(j < h < i);
                }
            }
        } else {
            assert forall|j: int| !unconsumed_unpark(ops, j, i) by {
                if unconsumed_unpark(ops, j, i) {
                    assert(j != h);
                    assert(unconsumed_unpark(ops, j, h));
                }
            }
        }
    }
}

/// `park` returns if and only if a notification was stored and not yet
/// consumed: the attempt at position `i` of a history lets `park` return
/// exactly when an earlier `unpark` exists that no attempt in between has
/// consumed.
pub proof fn park_returns_iff_notified(ops: Seq<ParkOp>, i: int)
    requires
        0 <= i < ops.len(),
        ops[i] != ParkOp::Unpark,
    ensures
        resumes_at(ops, i) <==> exists|j: int| unconsumed_unpark(ops, j, i),
{
    notified_iff_unconsumed_unpark(ops, i);
}

/// A notification stored before the owner parks is not lost: whatever the
/// state, an `unpark` followed by an attempt to park lets `park` return, and
/// leaves the parker empty.
pub proof fn unpark_before_park_resumes(s: ParkState, attempt: ParkOp)
    requires
        attempt != ParkOp::Unpark,
    ensures
        park_resumes(park_next(s, ParkOp::Unpark), attempt),
        park_next(park_next(s, ParkOp::Unpark), attempt) == ParkState::Empty,
{
}

/// Whether position `j` holds an entry into `park` that found no
/// notification, and the owner has only looked again since, up to position
/// `i`: the owner waits on the condition variable.
pub open spec fn owner_waits(ops: Seq<ParkOp>, j: int, i: int) -> bool {
    &&& 0 <= j < i <= ops.len()
    &&& ops[j] == ParkOp::Park
    &&& !resumes_at(ops, j)
    &&& forall|k: int| j < k < i ==> ops[k] == ParkOp::Wake
}

/// The condition variable is signalled exactly for an owner that waits: an
/// `unpark` after the first `i` operations signals if and only if the owner
/// entered `park` without finding a notification and no `unpark` came since.
pub proof fn signal_iff_owner_waits(ops: Seq<ParkOp>, i: int)
    requires
        0 <= i <= ops.len(),
    ensures
        unpark_signals(park_run(ops.take(i))) <==> exists|j: int| owner_waits(ops, j, i),
    decreases i,
{
    if i == 0 {
        assert(ops.take(0).len() == 0);
    } else {
        let h = i - 1;
        signal_iff_owner_waits(ops, h);
        assert(ops.take(i).drop_last() =~= ops.take(h));
        assert(ops.take(i).last() == ops[h]);
        let before = park_run(ops.take(h));
        assert(park_run(ops.take(i)) == park_next(before, ops[h]));
        if ops[h] == ParkOp::Park && before != ParkState::Notified {
            assert(owner_waits(ops, h, i));
        } else if ops[h] == ParkOp::Wake && before == ParkState::Parked {
            let j = choose|j: int| owner_waits(ops, j, h);
            assert(owner_waits(ops, j, i));
        } else {
            assert forall|j: int| !owner_waits(ops, j, i) by {
                if owner_waits(ops, j, i) {
                    if j == h {
                        assert(resumes_at(ops, h));
                    } else {
                        assert(ops[h] == ParkOp::Wake);
                        assert(owner_waits(ops, j, h));
                    }
                }
            }
        }
    }
}

/// The parker of one thread.
pub struct Parker {
    state: ParkState,
}

impl Parker {
    /// The state word.
    pub closed spec fn state(&self) -> ParkState {
        self.state
    }

    /// A parker with no notification stored.
    pub fn new() -> (p: Parker)
        ensures
            p.state() == ParkState::Empty,
    {
        Parker { state: ParkState::Empty }
    }

    /// The current state word.
    pub fn current(&self) -> (s: ParkState)
        ensures
            s == self.state(),
    {
        self.state
    }

    /// The owner enters `park`. A stored notification is consumed and the
    /// owner goes on; otherwise the parker is marked as parked and the owner
    /// waits. Two threads parking on one parker is an error of the caller.
    pub fn park(&mut self) -> (step: ParkStep)
        requires
            old(self).state() != ParkState::Parked,
        ensures
            final(self).state() == park_next(old(self).state(), ParkOp::Park),
            step == ParkStep::Resume <==> park_resumes(old(self).state(), ParkOp::Park),
    {
        match self.state {
            ParkState::Notified => {
                self.state = ParkState::Empty;
                ParkStep::Resume
            },
            _ => {
                self.state = ParkState::Parked;
                ParkStep::Wait
            },
        }
    }

    /// The owner woke from the condition variable. A stored notification is
    /// consumed and `park` returns; otherwise the wake was spurious, the state
    /// stays and the owner waits again.
    pub fn park_wake(&mut self) -> (step: ParkStep)
        ensures
            final(self).state() == park_next(old(self).state(), ParkOp::Wake),
            step == ParkStep::Resume <==> park_resumes(old(self).state(), ParkOp::Wake),
    {
        match self.state {
            ParkState::Notified => {
                self.state = ParkState::Empty;
                ParkStep::Resume
            },
            _ => ParkStep::Wait,
        }
    }

    /// Stores a notification. Returns whether the owner is parked, in which
    /// case the caller signals the condition variable, once.
    pub fn unpark(&mut self) -> (signal: bool)
        ensures
            final(self).state() == ParkState::Notified,
            final(self).state() == park_next(old(self).state(), ParkOp::Unpark),
            signal == unpark_signals(old(self).state()),
    {
        let signal = self.state == ParkState::Parked;
        self.state = ParkState::Notified;
        signal
    }
}

} // verus!
