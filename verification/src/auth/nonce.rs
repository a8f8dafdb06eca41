//! One-time nonces of the sign-in handshake.
//!
//! A nonce is handed out once, lives for five minutes and is taken back at
//! most once. The store keeps, for every nonce, the second at which it was
//! handed out, and holds the lifetime against that second when the nonce
//! comes back. The cache underneath bounds the number of entries: it drops
//! the oldest ones when there are too many, and old ones on its own.

use vstd::prelude::*;
use crate::clock::unix_time;

verus! {

/// Number of characters in a nonce.
pub const NONCE_SIZE: usize = 64;

/// Seconds for which a nonce can be used after it was handed out.
pub const NONCE_TTL_SECS: u64 = 300;

/// Number of nonces that the store holds at most.
pub const NONCE_CAPACITY: u64 = 10_000;

/// An ASCII letter or digit.
pub open spec fn spec_is_alphanumeric(c: char) -> bool {
    ('0' <= c && c <= '9') || ('a' <= c && c <= 'z') || ('A' <= c && c <= 'Z')
}

/// A well-formed nonce: sixty-four ASCII letters and digits.
pub open spec fn spec_is_nonce(s: Seq<char>) -> bool {
    &&& s.len() == NONCE_SIZE
    &&& forall|i: int| 0 <= i < s.len() ==> spec_is_alphanumeric(#[trigger] s[i])
}

/// Whether a nonce handed out at `issued_at` can still be used at `now`.
pub open spec fn spec_is_live(issued_at: u64, now: u64) -> bool {
    now <= issued_at + NONCE_TTL_SECS
}

/// `moka::sync::Cache`, a concurrent cache that drops entries by age and
/// by number. What it holds is spoken of through `nonce_entries`.
#[verifier::external_type_specification]
#[verifier::external_body]
#[verifier::reject_recursive_types(K)]
#[verifier::reject_recursive_types(V)]
#[verifier::reject_recursive_types(S)]
pub struct ExCache<K, V, S>(moka::sync::Cache<K, V, S>);

/// The entries that a cache may still give out: every key that was inserted
/// and not removed since, with the value of its last insertion. The cache
/// drops entries on its own, by age and by number, so that a key found here
/// need not be found in the cache; a key not found here is not in the cache.
pub uninterp spec fn nonce_entries(cache: moka::sync::Cache<String, u64>) -> Map<Seq<char>, u64>;

/// The limits that a cache was built with: the seconds after which it
/// drops an entry, and the number of entries that it holds at most.
pub uninterp spec fn nonce_limits(cache: moka::sync::Cache<String, u64>) -> (u64, u64);

/// The map without entries.
pub open spec fn spec_no_entries() -> Map<Seq<char>, u64> {
    Map::empty()
}

/// `moka::sync::Cache::builder` with `time_to_live`, `max_capacity`, the
/// least-recently-used `eviction_policy`, and `build`: an empty cache that
/// drops an entry `ttl_secs` seconds after its insertion, and the entries
/// that were inserted longest ago once it holds more than `capacity`.
/// `build` panics on a lifetime of more than a thousand years.
#[verifier::external_body]
fn cache_new(ttl_secs: u64, capacity: u64) -> (res: moka::sync::Cache<String, u64>)
    requires
        ttl_secs <= 31_536_000_000,
    ensures
        nonce_entries(res) == spec_no_entries(),
        nonce_limits(res) == (ttl_secs, capacity),
{
    moka::sync::Cache::builder().time_to_live(std::time::Duration::from_secs(ttl_secs)).max_capacity(
        capacity,
    ).eviction_policy(moka::policy::EvictionPolicy::lru()).build()
}

/// `moka::sync::Cache::insert`: the key maps to the new value, whatever it
/// mapped to before. The limits of the cache stay.
#[verifier::external_body]
fn cache_insert(cache: &mut moka::sync::Cache<String, u64>, key: String, value: u64)
    ensures
        nonce_entries(*final(cache)) == nonce_entries(*old(cache)).insert(key@, value),
        nonce_limits(*final(cache)) == nonce_limits(*old(cache)),
{
    cache.insert(key, value)
}

/// `moka::sync::Cache::remove`: the key is gone afterwards. A value comes
/// back only for a key that was inserted and not removed since, and it is
/// the value of the last insertion; nothing comes back where the cache has
/// dropped the entry by then. The limits of the cache stay.
#[verifier::external_body]
fn cache_remove(cache: &mut moka::sync::Cache<String, u64>, key: &str) -> (res: Option<u64>)
    ensures
        nonce_entries(*final(cache)) == nonce_entries(*old(cache)).remove(key@),
        nonce_limits(*final(cache)) == nonce_limits(*old(cache)),
        res matches Some(value) ==> nonce_entries(*old(cache)).contains_key(key@)
            && nonce_entries(*old(cache))[key@] == value,
{
    cache.remove(key)
}

/// `rand::distr::Alphanumeric::sample_string` on `rand::rng()`: `len`
/// characters, each an ASCII letter or digit, drawn at random.
#[verifier::external_body]
fn random_alphanumeric(len: usize) -> (res: String)
    ensures
        res@.len() == len,
        forall|i: int| 0 <= i < res@.len() ==> spec_is_alphanumeric(#[trigger] res@[i]),
{
    rand::distr::SampleString::sample_string(&rand::distr::Alphanumeric, &mut rand::rng(), len)
}

/// What holds when a nonce is handed out at `now`: it is well formed, and
/// outstanding from then on.
pub open spec fn spec_handed_out(
    before: Map<Seq<char>, u64>,
    after: Map<Seq<char>, u64>,
    nonce: Seq<char>,
    now: u64,
) -> bool {
    &&& spec_is_nonce(nonce)
    &&& after == before.insert(nonce, now)
}

/// What holds when a nonce is taken out of the store: it is gone
/// afterwards, and an issue time comes with it only if it was outstanding,
/// and is then the time at which it was handed out.
pub open spec fn spec_taken(
    before: Map<Seq<char>, u64>,
    after: Map<Seq<char>, u64>,
    nonce: Seq<char>,
    removed: Option<u64>,
) -> bool {
    &&& after == before.remove(nonce)
    &&& removed matches Some(issued_at) ==> before.contains_key(nonce) && before[nonce]
        == issued_at
}

/// What holds of one attempt to take a nonce back: the nonce is gone
/// afterwards, and the attempt succeeds only for a nonce that was
/// outstanding and is still alive.
pub open spec fn spec_consumed(
    before: Map<Seq<char>, u64>,
    after: Map<Seq<char>, u64>,
    nonce: Seq<char>,
    now: u64,
    ok: bool,
) -> bool {
    &&& after == before.remove(nonce)
    &&& ok ==> before.contains_key(nonce) && spec_is_live(before[nonce], now)
}

/// Whether what the cache gave back for a nonce lets it be used at `now`:
/// it was found, and handed out no more than the lifetime ago.
pub fn nonce_is_live(removed: Option<u64>, now: u64) -> (res: bool)
    ensures
        res == (removed matches Some(issued_at) && spec_is_live(issued_at, now)),
{
    match removed {
        Some(issued_at) => {
            let limit: u128 = issued_at as u128 + NONCE_TTL_SECS as u128;
            now as u128 <= limit
        },
        None => false,
    }
}

/// The nonces that were handed out and not yet taken back.
pub struct NonceStore {
    cache: moka::sync::Cache<String, u64>,
}

impl NonceStore {
    /// The nonces that may still be taken back, each with the second at
    /// which it was handed out.
    pub closed spec fn outstanding(&self) -> Map<Seq<char>, u64> {
        nonce_entries(self.cache)
    }

    /// Seconds after which the cache underneath drops a nonce.
    pub closed spec fn lifetime(&self) -> u64 {
        nonce_limits(self.cache).0
    }

    /// Number of nonces that the cache underneath holds at most.
    pub closed spec fn capacity(&self) -> u64 {
        nonce_limits(self.cache).1
    }

    /// An empty store, with the lifetime and the bound of a nonce store.
    pub fn new() -> (res: NonceStore)
        ensures
            res.outstanding() == spec_no_entries(),
            res.lifetime() == NONCE_TTL_SECS,
            res.capacity() == NONCE_CAPACITY,
    {
        NonceStore { cache: cache_new(NONCE_TTL_SECS, NONCE_CAPACITY) }
    }

    /// Hands out a new random nonce at the time `now`.
    pub fn fresh_at(&mut self, now: u64) -> (nonce: String)
        ensures
            spec_handed_out(old(self).outstanding(), final(self).outstanding(), nonce@, now),
            final(self).lifetime() == old(self).lifetime(),
            final(self).capacity() == old(self).capacity(),
    {
        let nonce = random_alphanumeric(NONCE_SIZE);
        cache_insert(&mut self.cache, nonce.clone(), now);
        nonce
    }

    /// Hands out a new random nonce at the current time.
    pub fn fresh(&mut self) -> (nonce: String)
        ensures
            exists|now: u64|
                spec_handed_out(old(self).outstanding(), final(self).outstanding(), nonce@, now),
            final(self).lifetime() == old(self).lifetime(),
            final(self).capacity() == old(self).capacity(),
    {
        let now = unix_time();
        self.fresh_at(now)
    }

    /// Takes `nonce` out of the store and returns what was kept for it:
    /// the second at which it was handed out, or nothing where the store
    /// does not hold it any more.
    pub fn take(&mut self, nonce: &str) -> (removed: Option<u64>)
        ensures
            spec_taken(old(self).outstanding(), final(self).outstanding(), nonce@, removed),
            final(self).lifetime() == old(self).lifetime(),
            final(self).capacity() == old(self).capacity(),
    {
        cache_remove(&mut self.cache, nonce)
    }

    /// Takes `nonce` back at the time `now`. The nonce is gone afterwards,
    /// whatever the answer; the answer is `true` only for a nonce that was
    /// outstanding and handed out no more than the lifetime ago.
    pub fn consume_at(&mut self, nonce: &str, now: u64) -> (ok: bool)
        ensures
            spec_consumed(old(self).outstanding(), final(self).outstanding(), nonce@, now, ok),
            final(self).lifetime() == old(self).lifetime(),
            final(self).capacity() == old(self).capacity(),
    {
        let removed = self.take(nonce);
        nonce_is_live(removed, now)
    }

    /// Takes `nonce` back at the current time.
    pub fn consume(&mut self, nonce: &str) -> (ok: bool)
        ensures
            exists|now: u64|
                spec_consumed(old(self).outstanding(), final(self).outstanding(), nonce@, now, ok),
            final(self).lifetime() == old(self).lifetime(),
            final(self).capacity() == old(self).capacity(),
    {
        let now = unix_time();
        self.consume_at(nonce, now)
    }
}

/// A nonce is used at most once: of two attempts to take the same nonce
/// back, with the second starting from where the first ended, the second
/// fails, at whatever times they are made.
pub proof fn law_nonce_is_single_use(
    s0: Map<Seq<char>, u64>,
    s1: Map<Seq<char>, u64>,
    s2: Map<Seq<char>, u64>,
    nonce: Seq<char>,
    t1: u64,
    t2: u64,
    ok1: bool,
    ok2: bool,
)
    requires
        spec_consumed(s0, s1, nonce, t1, ok1),
        spec_consumed(s1, s2, nonce, t2, ok2),
    ensures
        !ok2,
{
}

/// A nonce that was handed out more than the lifetime ago is refused.
pub proof fn law_stale_nonce_is_refused(
    before: Map<Seq<char>, u64>,
    after: Map<Seq<char>, u64>,
    nonce: Seq<char>,
    now: u64,
    ok: bool,
)
    requires
        spec_consumed(before, after, nonce, now, ok),
        before.contains_key(nonce) ==> now > before[nonce] + NONCE_TTL_SECS,
    ensures
        !ok,
{
}

/// A nonce that was never handed out, or was taken back already, is
/// refused just as a stale one is.
pub proof fn law_unknown_nonce_is_refused(
    before: Map<Seq<char>, u64>,
    after: Map<Seq<char>, u64>,
    nonce: Seq<char>,
    now: u64,
    ok: bool,
)
    requires
        spec_consumed(before, after, nonce, now, ok),
        !before.contains_key(nonce),
    ensures
        !ok,
        after == before,
{
    assert(before.remove(nonce) =~= before);
}

/// One operation on the store, as it is seen from outside.
pub enum NonceOp {
    /// A nonce was handed out.
    HandOut { nonce: Seq<char>, at: u64 },
    /// A nonce came back, and was accepted or not.
    TakeBack { nonce: Seq<char>, at: u64, ok: bool },
}

/// Whether `op` leads from `before` to `after`.
pub open spec fn spec_op(
    before: Map<Seq<char>, u64>,
    after: Map<Seq<char>, u64>,
    op: NonceOp,
) -> bool {
    match op {
        NonceOp::HandOut { nonce, at } => spec_handed_out(before, after, nonce, at),
        NonceOp::TakeBack { nonce, at, ok } => spec_consumed(before, after, nonce, at, ok),
    }
}

/// A history of the store: `states[i]` is what is outstanding before
/// `ops[i]`, and `states[i + 1]` what is outstanding after it.
pub open spec fn spec_history(states: Seq<Map<Seq<char>, u64>>, ops: Seq<NonceOp>) -> bool {
    &&& states.len() == ops.len() + 1
    &&& forall|i: int| 0 <= i < ops.len() ==> spec_op(states[i], #[trigger] states[i + 1], ops[i])
}

/// Whether `nonce` is handed out by one of `ops[from..to]`.
pub open spec fn spec_handed_out_between(ops: Seq<NonceOp>, nonce: Seq<char>, from: int, to: int)
    -> bool {
    exists|k: int|
        from <= k < to && (#[trigger] ops[k]) is HandOut && ops[k]->HandOut_nonce == nonce
}

/// A nonce that came back stays away until it is handed out again.
proof fn lemma_gone_until_handed_out(
    states: Seq<Map<Seq<char>, u64>>,
    ops: Seq<NonceOp>,
    nonce: Seq<char>,
    i: int,
    j: int,
)
    requires
        spec_history(states, ops),
        0 <= i < j <= ops.len(),
        ops[i] is TakeBack,
        ops[i]->TakeBack_nonce == nonce,
        !spec_handed_out_between(ops, nonce, i + 1, j),
    ensures
        !states[j].contains_key(nonce),
    decreases j - i,
{
    if j == i + 1 {
        assert(spec_op(states[i], states[i + 1], ops[i]));
    } else {
        assert(!spec_handed_out_between(ops, nonce, i + 1, j - 1)) by {
            if spec_handed_out_between(ops, nonce, i + 1, j - 1) {
                let k = choose|k: int|
                    i + 1 <= k < j - 1 && (#[trigger] ops[k]) is HandOut && ops[k]->HandOut_nonce
                        == nonce;
                assert(i + 1 <= k < j);
            }
        }
        lemma_gone_until_handed_out(states, ops, nonce, i, j - 1);
        assert(spec_op(states[j - 1], states[j - 1 + 1], ops[j - 1]));
        match ops[j - 1] {
            NonceOp::HandOut { nonce: other, at } => {
                if other == nonce {
                    assert(ops[j - 1] is HandOut && ops[j - 1]->HandOut_nonce == nonce);
                    assert(spec_handed_out_between(ops, nonce, i + 1, j));
                }
            },
            NonceOp::TakeBack { nonce: other, at, ok } => {},
        }
    }
}

/// Every hand-out is good for one use at most, whatever else happens to
/// the store in between: in any history, where an attempt to take a nonce
/// back succeeds after an earlier attempt on the same nonce, the nonce was
/// handed out again between the two.
pub proof fn law_one_use_per_hand_out(
    states: Seq<Map<Seq<char>, u64>>,
    ops: Seq<NonceOp>,
    nonce: Seq<char>,
    i: int,
    j: int,
)
    requires
        spec_history(states, ops),
        0 <= i < j < ops.len(),
        ops[i] is TakeBack,
        ops[i]->TakeBack_nonce == nonce,
        ops[j] is TakeBack,
        ops[j]->TakeBack_nonce == nonce,
        ops[j]->TakeBack_ok,
    ensures
        spec_handed_out_between(ops, nonce, i + 1, j),
{
    if !spec_handed_out_between(ops, nonce, i + 1, j) {
        lemma_gone_until_handed_out(states, ops, nonce, i, j);
        assert(spec_op(states[j], states[j + 1], ops[j]));
    }
}

} // verus!
