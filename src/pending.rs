//! The pending-connection table: external connections accepted on a client's
//! public port, waiting for the client to claim them by correlation id, or to
//! be evicted once their time-to-live has passed.
use vstd::prelude::*;
use std::collections::HashMap;
use crate::protocol::{HANDSHAKE, PENDING_TTL_MS};

verus! {

/// An accepted external stream and the time, in milliseconds, it was accepted.
pub struct PendingConnection<S> {
    pub stream: S,
    pub created_at: u64,
}

/// Whether an entry has outlived its time-to-live at time `now`.
pub open spec fn expired<S>(e: PendingConnection<S>, now: u64) -> bool {
    now >= e.created_at + PENDING_TTL_MS
}

/// The stream that claiming `id` hands out, if any.
pub open spec fn claimed<S>(m: Map<u128, PendingConnection<S>>, id: u128) -> Option<S> {
    if m.contains_key(id) {
        Some(m[id].stream)
    } else {
        None
    }
}

/// Whether a sweep of `id` at time `now` removes it.
pub open spec fn evicted<S>(m: Map<u128, PendingConnection<S>>, id: u128, now: u64) -> bool {
    m.contains_key(id) && expired(m[id], now)
}

/// The table after a sweep of `id` at time `now`.
pub open spec fn after_sweep<S>(m: Map<u128, PendingConnection<S>>, id: u128, now: u64) -> Map<
    u128,
    PendingConnection<S>,
> {
    if evicted(m, id, now) {
        m.remove(id)
    } else {
        m
    }
}

/// Whether `id` may name a new entry: unused, and not the control marker.
pub open spec fn fresh_id<S>(m: Map<u128, PendingConnection<S>>, id: u128) -> bool {
    !m.contains_key(id) && id != HANDSHAKE
}

/// Relies on `rand::random`: a value drawn from the thread-local generator;
/// nothing is known of it.
#[verifier::external_body]
fn random_id() -> (r: u128) {
    rand::random::<u128>()
}

/// How many ids `register` draws before it gives up.
pub const ID_ATTEMPTS: usize = 4;

/// Streams waiting to be claimed, by correlation id.
pub struct PendingTable<S> {
    entries: HashMap<u128, PendingConnection<S>>,
}

impl<S> View for PendingTable<S> {
    type V = Map<u128, PendingConnection<S>>;

    closed spec fn view(&self) -> Map<u128, PendingConnection<S>> {
        self.entries@
    }
}

impl<S> PendingTable<S> {
    /// An empty table.
    pub fn new() -> (r: PendingTable<S>)
        ensures
            r@ == Map::<u128, PendingConnection<S>>::empty(),
    {
        PendingTable { entries: HashMap::new() }
    }

    /// Number of waiting streams.
    pub fn len(&self) -> (r: usize)
        ensures
            r == self@.len(),
    {
        self.entries.len()
    }

    /// Whether a stream waits under `id`.
    pub fn contains(&self, id: u128) -> (r: bool)
        ensures
            r == self@.contains_key(id),
    {
        self.entries.contains_key(&id)
    }

    /// Adds `stream`, accepted at `now`, under `id`. An id already in use, or
    /// equal to the control marker, is refused and the stream handed back.
    pub fn insert(&mut self, id: u128, stream: S, now: u64) -> (r: Result<(), S>)
        ensures
            r.is_ok() == fresh_id(old(self)@, id),
            r.is_ok() ==> final(self)@ == old(self)@.insert(
                id,
                PendingConnection { stream, created_at: now },
            ),
            r matches Err(s) ==> s == stream && final(self)@ == old(self)@,
    {
        if id == HANDSHAKE || self.entries.contains_key(&id) {
            return Err(stream);
        }
        self.entries.insert(id, PendingConnection { stream, created_at: now });
        Ok(())
    }

    /// Adds `stream`, accepted at `now`, under a freshly drawn id, and returns
    /// that id. Gives the stream back if no usable id came up in a few draws.
    pub fn register(&mut self, incoming: S, now: u64) -> (r: Result<u128, S>)
        ensures
            r matches Ok(id) ==> fresh_id(old(self)@, id) && final(self)@ == old(self)@.insert(
                id,
                PendingConnection { stream: incoming, created_at: now },
            ),
            r matches Err(s) ==> s == incoming && final(self)@ == old(self)@,
    {
        let mut stream = incoming;
        let mut attempt: usize = 0;
        while attempt < ID_ATTEMPTS
            invariant
                self@ == old(self)@,
                stream == incoming,
            decreases ID_ATTEMPTS - attempt,
        {
            let id = random_id();
            match self.insert(id, stream, now) {
                Ok(()) => {
                    return Ok(id);
                },
                Err(s) => {
                    stream = s;
                },
            }
            attempt += 1;
        }
        Err(stream)
    }

    /// Removes and returns the stream waiting under `id`, if any.
    pub fn claim(&mut self, id: u128) -> (r: Option<S>)
        ensures
            r == claimed(old(self)@, id),
            final(self)@ == old(self)@.remove(id),
    {
        match self.entries.remove(&id) {
            Some(e) => Some(e.stream),
            None => None,
        }
    }

    /// The deferred eviction of `id`: removes and returns its stream if it is
    /// still waiting and has outlived its time-to-live at `now`; otherwise
    /// changes nothing.
    pub fn sweep(&mut self, id: u128, now: u64) -> (r: Option<S>)
        ensures
            r == (if evicted(old(self)@, id, now) {
                claimed(old(self)@, id)
            } else {
                None
            }),
            final(self)@ == after_sweep(old(self)@, id, now),
    {
        let due = match self.entries.get(&id) {
            Some(e) => now >= e.created_at && now - e.created_at >= PENDING_TTL_MS,
            None => false,
        };
        if due {
            self.claim(id)
        } else {
            None
        }
    }
}

/// Claiming and evicting exclude each other: after a successful claim no
/// sweep evicts the id, and after an eviction no claim finds it.
pub proof fn lemma_claim_excludes_eviction<S>(
    m: Map<u128, PendingConnection<S>>,
    id: u128,
    now: u64,
)
    ensures
        claimed(m, id).is_some() ==> !evicted(m.remove(id), id, now),
        evicted(m, id, now) ==> claimed(after_sweep(m, id, now), id).is_none(),
        evicted(m, id, now) ==> claimed(m, id).is_some(),
{
}

/// Work on other ids leaves an entry as it was: inserts, claims and sweeps of
/// `other` neither remove nor change the entry under `id`.
pub proof fn lemma_other_ids_untouched<S>(
    m: Map<u128, PendingConnection<S>>,
    id: u128,
    other: u128,
    e: PendingConnection<S>,
    now: u64,
)
    requires
        other != id,
    ensures
        claimed(m.remove(other), id) == claimed(m, id),
        claimed(after_sweep(m, other, now), id) == claimed(m, id),
        claimed(m.insert(other, e), id) == claimed(m, id),
        evicted(m.remove(other), id, now) == evicted(m, id, now),
        evicted(after_sweep(m, other, now), id, now) == evicted(m, id, now),
        evicted(m.insert(other, e), id, now) == evicted(m, id, now),
{
}

/// An entry accepted at `t` is evicted by a sweep at `now` exactly when its
/// time-to-live has passed; before that a sweep leaves it to be claimed.
pub proof fn lemma_eviction_after_ttl<S>(
    m: Map<u128, PendingConnection<S>>,
    id: u128,
    stream: S,
    t: u64,
    now: u64,
)
    ensures
        evicted(m.insert(id, PendingConnection { stream, created_at: t }), id, now) <==> now
            >= t + PENDING_TTL_MS,
        now < t + PENDING_TTL_MS ==> claimed(
            after_sweep(m.insert(id, PendingConnection { stream, created_at: t }), id, now),
            id,
        ) == Some(stream),
{
}

} // verus!
