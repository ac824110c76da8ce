//! The concurrent slab that the event driver keeps its registry in.

use vstd::prelude::*;

verus! {

/// A `sharded_slab::Slab` of plain integers. Its contents are known only
/// through `slab_entries` and what the functions below state of them; no
/// guard of an entry ever leaves this module.
#[verifier::external_body]
pub struct TokenSlab {
    inner: sharded_slab::Slab<usize>,
}

/// The entries that a slab holds: each key that the slab currently answers
/// for, with the value stored under it.
pub uninterp spec fn slab_entries(s: TokenSlab) -> Map<usize, usize>;

/// `Slab::new`: the new slab holds nothing.
#[verifier::external_body]
pub(crate) fn slab_new() -> (s: TokenSlab)
    ensures
        slab_entries(s).dom() == Set::<usize>::empty(),
{
    TokenSlab { inner: sharded_slab::Slab::new() }
}

/// `Slab::insert`: on `Some`, the value is stored under the returned key,
/// which no entry had before, and every other entry stays; on `None` (the
/// shard of the calling thread is full) the slab stays as it is. The call
/// panics in a process that has used up the slab's thread identifiers.
#[verifier::external_body]
pub(crate) fn slab_insert(s: &mut TokenSlab, value: usize) -> (key: Option<usize>)
    ensures
        match key {
            Some(k) => !slab_entries(*old(s)).contains_key(k) && slab_entries(*final(s))
                == slab_entries(*old(s)).insert(k, value),
            None => slab_entries(*final(s)) == slab_entries(*old(s)),
        },
{
    s.inner.insert(value)
}

/// `Slab::get`, with the value copied out of the guard: `Some` of the value
/// stored under the key, `None` where the slab holds no entry under it. The
/// slab stays as it is.
#[verifier::external_body]
pub(crate) fn slab_get(s: &TokenSlab, key: usize) -> (value: Option<usize>)
    ensures
        value == (if slab_entries(*s).contains_key(key) {
            Some(slab_entries(*s)[key])
        } else {
            None
        }),
{
    match s.inner.get(key) {
        Some(entry) => Some(*entry),
        None => None,
    }
}

/// `Slab::remove`, on a key that the slab holds an entry under, while no
/// guard of that entry is alive: the entry leaves at once, every other entry
/// stays, and the call returns `true`.
#[verifier::external_body]
pub(crate) fn slab_remove(s: &mut TokenSlab, key: usize) -> (removed: bool)
    requires
        slab_entries(*old(s)).contains_key(key),
    ensures
        removed,
        slab_entries(*final(s)) == slab_entries(*old(s)).remove(key),
{
    s.inner.remove(key)
}

} // verus!
