//! Per-client rate limiting: a bounded recency cache from client identity to
//! the time of its last accepted submission.

use vstd::prelude::*;
use lru::LruCache;

verus! {

#[verifier::external_type_specification]
#[verifier::external_body]
#[verifier::reject_recursive_types(K)]
#[verifier::reject_recursive_types(V)]
#[verifier::reject_recursive_types(S)]
pub struct ExLruCache<K, V, S>(LruCache<K, V, S>);

#[verifier::external_type_specification]
#[verifier::external_body]
pub struct ExDefaultHasher(lru::DefaultHasher);

/// A client's identity: its address as 128 bits (IPv4 mapped into IPv6) and
/// its port.
pub type ClientId = (u128, u16);

/// The entries of a recency cache: client to time of last acceptance, in
/// milliseconds.
pub uninterp spec fn lru_entries(c: LruCache<ClientId, u64>) -> Map<ClientId, u64>;

/// The number of entries a recency cache was made to hold.
pub uninterp spec fn lru_cap(c: LruCache<ClientId, u64>) -> nat;

/// Relies on `LruCache::new`: an empty cache that holds at most `cap` items.
#[verifier::external_body]
fn cache_new(cap: usize) -> (r: LruCache<ClientId, u64>)
    requires
        cap > 0,
    ensures
        lru_entries(r).dom() == Set::<ClientId>::empty(),
        lru_cap(r) == cap,
{
    LruCache::new(std::num::NonZeroUsize::new(cap).unwrap())
}

/// Relies on `LruCache::get`: the value of the key if present; only the
/// recency order changes.
#[verifier::external_body]
fn cache_get(c: &mut LruCache<ClientId, u64>, k: &ClientId) -> (r: Option<u64>)
    ensures
        lru_entries(*final(c)) == lru_entries(*old(c)),
        lru_cap(*final(c)) == lru_cap(*old(c)),
        r == (if lru_entries(*old(c)).contains_key(*k) {
            Some(lru_entries(*old(c))[*k])
        } else {
            None::<u64>
        }),
{
    c.get(k).copied()
}

/// Relies on `LruCache::put`: the key then maps to the value. An existing key
/// is updated in place; a new key is added, and when the cache was full one
/// other entry (the least recently used) is evicted first.
#[verifier::external_body]
fn cache_put(c: &mut LruCache<ClientId, u64>, k: ClientId, v: u64)
    ensures
        lru_cap(*final(c)) == lru_cap(*old(c)),
        lru_entries(*final(c)).contains_key(k),
        lru_entries(*final(c))[k] == v,
        forall|j: ClientId|
            j != k && #[trigger] lru_entries(*final(c)).contains_key(j) ==> lru_entries(
                *old(c),
            ).contains_key(j) && lru_entries(*final(c))[j] == lru_entries(*old(c))[j],
        lru_entries(*old(c)).contains_key(k) ==> lru_entries(*final(c)) == lru_entries(
            *old(c),
        ).insert(k, v),
        lru_entries(*old(c)).dom().finite() && lru_entries(*old(c)).dom().len() < lru_cap(*old(c))
            ==> lru_entries(*final(c)) == lru_entries(*old(c)).insert(k, v),
{
    c.put(k, v);
}

/// The answer to one submission.
#[derive(Debug, PartialEq, Eq, Clone, Copy)]
pub enum Admission {
    /// The submission may go on to wait for an execution permit.
    Allowed,
    /// The client's previous accepted submission is too recent.
    Cooldown,
    /// The client could not be identified, so no limit can be applied.
    NoIdentity,
}

/// The fixed message of a cooldown rejection.
pub const COOLDOWN_MESSAGE: &'static str = "Code ran too soon. Please wait a little.";

/// Milliseconds from `then` to `now`, zero when `now` is not later.
pub open spec fn elapsed(then: u64, now: u64) -> int {
    if now >= then {
        now - then
    } else {
        0
    }
}

/// True when the client was accepted less than `cooldown` ago.
pub open spec fn in_cooldown(m: Map<ClientId, u64>, cooldown: u64, c: ClientId, now: u64) -> bool {
    m.contains_key(c) && elapsed(m[c], now) < cooldown
}

/// The rate limiter's state.
pub struct RateLimiter {
    cache: LruCache<ClientId, u64>,
    cooldown_ms: u64,
}

impl RateLimiter {
    /// Who was accepted when, as far as the cache still remembers.
    pub closed spec fn entries(&self) -> Map<ClientId, u64> {
        lru_entries(self.cache)
    }

    /// The cooldown window, in milliseconds.
    pub closed spec fn cooldown(&self) -> u64 {
        self.cooldown_ms
    }

    /// How many clients the cache remembers at most.
    pub closed spec fn capacity(&self) -> nat {
        lru_cap(self.cache)
    }

    /// A limiter that remembers up to `capacity` clients, each for
    /// `cooldown_ms` milliseconds after its last accepted submission.
    pub fn new(capacity: usize, cooldown_ms: u64) -> (r: RateLimiter)
        requires
            capacity > 0,
        ensures
            r.entries().dom() == Set::<ClientId>::empty(),
            r.cooldown() == cooldown_ms,
            r.capacity() == capacity,
    {
        RateLimiter { cache: cache_new(capacity), cooldown_ms }
    }

    /// Decides on a submission from `client` at time `now_ms`. A client
    /// accepted less than the cooldown ago is rejected and nothing is
    /// recorded; otherwise it is accepted and its time becomes `now_ms`. A
    /// missing identity is rejected outright, with nothing recorded. Other
    /// clients' records are kept, but for one that the cache may evict to
    /// make room.
    pub fn try_admit(&mut self, client: Option<ClientId>, now_ms: u64) -> (a: Admission)
        ensures
            final(self).cooldown() == old(self).cooldown(),
            final(self).capacity() == old(self).capacity(),
            match client {
                None => a == Admission::NoIdentity && final(self).entries() == old(self).entries(),
                Some(c) => if in_cooldown(old(self).entries(), old(self).cooldown(), c, now_ms) {
                    a == Admission::Cooldown && final(self).entries() == old(self).entries()
                } else {
                    &&& a == Admission::Allowed
                    &&& final(self).entries().contains_key(c)
                    &&& final(self).entries()[c] == now_ms
                    &&& forall|j: ClientId|
                        j != c && #[trigger] final(self).entries().contains_key(j) ==> old(
                            self,
                        ).entries().contains_key(j) && final(self).entries()[j] == old(
                            self,
                        ).entries()[j]
                },
            },
    {
        let c = match client {
            None => return Admission::NoIdentity,
            Some(c) => c,
        };
        match cache_get(&mut self.cache, &c) {
            Some(t) => {
                let since: u64 = if now_ms >= t {
                    now_ms - t
                } else {
                    0
                };
                if since < self.cooldown_ms {
                    return Admission::Cooldown;
                }
            },
            None => {},
        }
        cache_put(&mut self.cache, c, now_ms);
        Admission::Allowed
    }
}

/// Once a client is accepted at `t1`, a second submission from it at any
/// `t2` within the cooldown window is rejected (and, by `try_admit`, leaves
/// the record as it was), while one at any `t3` after the window is accepted.
pub proof fn lemma_cooldown_window(
    m: Map<ClientId, u64>,
    cooldown: u64,
    c: ClientId,
    t1: u64,
    t2: u64,
    t3: u64,
)
    requires
        m.contains_key(c),
        m[c] == t1,
        t1 <= t2,
        t2 < t1 + cooldown,
        t3 >= t1 + cooldown,
    ensures
        in_cooldown(m, cooldown, c, t2),
        !in_cooldown(m, cooldown, c, t3),
{
}

} // verus!
