//! The registry of the event driver: which token stands for which event
//! channel, and to which channels a batch of readiness events goes.

use vstd::prelude::*;
use crate::io::event::Event;
use crate::io::slab::{slab_entries, slab_get, slab_insert, slab_new, slab_remove, TokenSlab};

verus! {

/// One readiness event on its way to the channel of the source it is about.
#[derive(Clone, Copy, Debug, PartialEq, Eq, Structural)]
pub struct Delivery {
    pub channel: usize,
    pub event: Event,
}

/// A change of the registry, as it occurs in a history of the registry.
#[derive(Clone, Copy, Debug, PartialEq, Eq, Structural)]
pub enum RegistryOp {
    /// A source was registered: its channel stands under the token.
    Register { token: usize, channel: usize },
    /// The source with this token was deregistered.
    Deregister { token: usize },
}

impl RegistryOp {
    /// The token that the change is about.
    pub open spec fn token(self) -> usize {
        match self {
            RegistryOp::Register { token, .. } => token,
            RegistryOp::Deregister { token } => token,
        }
    }
}

/// The registry that a change leaves behind.
pub open spec fn registry_next(registry: Map<usize, usize>, op: RegistryOp) -> Map<usize, usize> {
    match op {
        RegistryOp::Register { token, channel } => registry.insert(token, channel),
        RegistryOp::Deregister { token } => registry.remove(token),
    }
}

/// The registry that started empty and went through `ops`.
pub open spec fn registry_run(ops: Seq<RegistryOp>) -> Map<usize, usize>
    decreases ops.len(),
{
    if ops.len() == 0 {
        Map::empty()
    } else {
        registry_next(registry_run(ops.drop_last()), ops.last())
    }
}

/// Every registration of the history got a token that no live registration
/// had at that moment: what `Driver::register` promises of each call.
pub open spec fn tokens_fresh(ops: Seq<RegistryOp>) -> bool {
    forall|i: int|
        0 <= i < ops.len() ==> (#[trigger] ops[i] matches RegistryOp::Register { token, .. }
            ==> !registry_run(ops.take(i)).contains_key(token))
}

/// Whether position `i` holds a registration that is still alive after the
/// first `n` changes of the history.
pub open spec fn live_at(ops: Seq<RegistryOp>, i: int, n: int) -> bool {
    &&& 0 <= i < n <= ops.len()
    &&& ops[i] is Register
    &&& forall|k: int| i < k < n ==> ops[k] != (RegistryOp::Deregister { token: ops[i].token() })
}

/// The events of a batch that have a registered token, in their order, each
/// with the channel that stands under its token.
pub open spec fn deliveries(registry: Map<usize, usize>, events: Seq<Event>) -> Seq<Delivery>
    decreases events.len(),
{
    if events.len() == 0 {
        Seq::empty()
    } else {
        let rest = deliveries(registry, events.drop_last());
        let event = events.last();
        if registry.contains_key(event.token) {
            rest.push(Delivery { channel: registry[event.token], event })
        } else {
            rest
        }
    }
}

/// A registration that is alive stands in the registry under its token.
pub proof fn live_token_is_registered(ops: Seq<RegistryOp>, i: int, n: int)
    requires
        live_at(ops, i, n),
    ensures
        registry_run(ops.take(n)).contains_key(ops[i].token()),
    decreases n,
{
    let h = n - 1;
    assert(ops.take(n).drop_last() =~= ops.take(h));
    assert(ops.take(n).last() == ops[h]);
    if h > i {
        assert(live_at(ops, i, h));
        live_token_is_registered(ops, i, h);
        assert(ops[h] != (RegistryOp::Deregister { token: ops[i].token() }));
    }
}

/// Whatever the order of registrations and deregistrations, two
/// registrations that are alive at the same moment have different tokens.
pub proof fn live_tokens_unique(ops: Seq<RegistryOp>, i: int, j: int, n: int)
    requires
        tokens_fresh(ops),
        live_at(ops, i, n),
        live_at(ops, j, n),
        i != j,
    ensures
        ops[i].token() != ops[j].token(),
{
    let (a, b) = if i < j {
        (i, j)
    } else {
        (j, i)
    };
    assert(live_at(ops, a, b));
    live_token_is_registered(ops, a, b);
    assert(ops[b] is Register);
}

/// To register a source and deregister it at once leaves the registry as it
/// was: the token is free again and every other entry is untouched.
pub proof fn register_then_deregister_restores(
    registry: Map<usize, usize>,
    token: usize,
    channel: usize,
)
    requires
        !registry.contains_key(token),
    ensures
        registry_next(
            registry_next(registry, RegistryOp::Register { token, channel }),
            RegistryOp::Deregister { token },
        ) == registry,
{
    assert(registry.insert(token, channel).remove(token) =~= registry);
}

/// An event whose token is not registered reaches no channel, and an event
/// whose token is registered reaches the channel under it: the deliveries of
/// a batch extended by one event.
pub proof fn deliveries_push(registry: Map<usize, usize>, events: Seq<Event>, event: Event)
    ensures
        deliveries(registry, events.push(event)) == (if registry.contains_key(event.token) {
            deliveries(registry, events).push(Delivery { channel: registry[event.token], event })
        } else {
            deliveries(registry, events)
        }),
{
    assert(events.push(event).drop_last() =~= events);
}

/// Every delivery goes to the channel that stands under the token of its
/// event: no event reaches a channel of another source, and none reaches a
/// source that is not registered (any more).
pub proof fn deliveries_are_registered(registry: Map<usize, usize>, events: Seq<Event>, i: int)
    requires
        0 <= i < deliveries(registry, events).len(),
    ensures
        registry.contains_key(deliveries(registry, events)[i].event.token),
        deliveries(registry, events)[i].channel == registry[deliveries(
            registry,
            events,
        )[i].event.token],
    decreases events.len(),
{
    if events.len() > 0 {
        let rest = deliveries(registry, events.drop_last());
        if i < rest.len() {
            deliveries_are_registered(registry, events.drop_last(), i);
        }
    }
}

/// The event driver's registry of event channels.
pub struct Driver {
    wakers: TokenSlab,
}

impl Driver {
    /// The registry: each token in use, with the channel that stands under it.
    pub closed spec fn registry(&self) -> Map<usize, usize> {
        slab_entries(self.wakers)
    }

    /// A driver with nothing registered.
    pub fn new() -> (d: Driver)
        ensures
            d.registry() == Map::<usize, usize>::empty(),
    {
        let d = Driver { wakers: slab_new() };
        assert(d.registry() =~= Map::<usize, usize>::empty());
        d
    }

    /// Puts the channel into the registry and returns the token it stands
    /// under from now on, which no live registration has. `None` where the
    /// slab takes no more entries; the registry then stays as it is.
    pub fn register(&mut self, channel: usize) -> (token: Option<usize>)
        ensures
            match token {
                Some(t) => !old(self).registry().contains_key(t) && final(self).registry()
                    == registry_next(
                    old(self).registry(),
                    RegistryOp::Register { token: t, channel },
                ),
                None => final(self).registry() == old(self).registry(),
            },
    {
        slab_insert(&mut self.wakers, channel)
    }

    /// Takes the token out of the registry. Returns whether it was
    /// registered; if it was not, nothing changes.
    pub fn deregister(&mut self, token: usize) -> (removed: bool)
        ensures
            removed == old(self).registry().contains_key(token),
            final(self).registry() == registry_next(
                old(self).registry(),
                RegistryOp::Deregister { token },
            ),
    {
        match slab_get(&self.wakers, token) {
            Some(_) => slab_remove(&mut self.wakers, token),
            None => {
                assert(self.registry().remove(token) =~= self.registry());
                false
            },
        }
    }

    /// The channel that stands under the token, if the token is registered.
    pub fn channel(&self, token: usize) -> (channel: Option<usize>)
        ensures
            channel == (if self.registry().contains_key(token) {
                Some(self.registry()[token])
            } else {
                None
            }),
    {
        slab_get(&self.wakers, token)
    }

    /// Sorts a batch of readiness events: each event with a registered token
    /// goes to the channel under that token, in the order of the batch; an
    /// event whose token is not registered (any more) is dropped.
    pub fn dispatch(&self, events: &Vec<Event>) -> (out: Vec<Delivery>)
        ensures
            out@ == deliveries(self.registry(), events@),
    {
        let mut out: Vec<Delivery> = Vec::new();
        let mut i: usize = 0;
        while i < events.len()
            invariant
                i <= events.len(),
                out@ == deliveries(self.registry(), events@.take(i as int)),
            decreases events.len() - i,
        {
            let event = events[i];
            proof {
                deliveries_push(self.registry(), events@.take(i as int), event);
                assert(events@.take(i as int).push(event) =~= events@.take(i + 1));
            }
            match slab_get(&self.wakers, event.token) {
                Some(channel) => {
                    out.push(Delivery { channel, event });
                },
                None => {},
            }
            i += 1;
        }
        assert(events@.take(events.len() as int) =~= events@);
        out
    }
}

} // verus!
