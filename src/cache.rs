use vstd::prelude::*;

use crate::entry::{CacheEntry, EntryModel};
use crate::error::ResolveError;
use crate::record::{decode_lossy, utf8_lossy};
use crate::resolver::{conclude, on_cache_lookup, CacheStatus, Step, StepModel};

verus! {

#[verifier::external_type_specification]
#[verifier::external_body]
#[verifier::reject_recursive_types(K)]
#[verifier::reject_recursive_types(V)]
#[verifier::reject_recursive_types(S)]
pub struct ExMokaCache<K, V, S>(moka::sync::Cache<K, V, S>);

/// Seconds in the idle period after which an unused entry is dropped.
pub const DEFAULT_IDLE_SECS: u64 = 3600;

/// The longest idle period the cache accepts: a thousand years of 365 days.
pub const MAX_IDLE_SECS: u64 = 31_536_000_000;

/// Relies on moka's `sync::Cache::builder`, `time_to_idle`, `max_capacity`,
/// `weigher` and `build`: a cache that drops entries unused for `idle_secs`
/// and keeps the total of `CacheEntry::weight` under `max_weight`.
/// `build` panics on an idle period over a thousand years.
#[verifier::external_body]
fn build_cache(idle_secs: u64, max_weight: u64) -> (r: moka::sync::Cache<String, CacheEntry>)
    requires
        idle_secs <= MAX_IDLE_SECS,
{
    moka::sync::Cache::builder()
        .time_to_idle(std::time::Duration::from_secs(idle_secs))
        .max_capacity(max_weight)
        .weigher(|_k: &String, v: &CacheEntry| v.weight())
        .build()
}

/// Relies on moka's `sync::Cache::get`. The cache is shared with other
/// tasks and drops entries on its own, so nothing is known of the result.
#[verifier::external_body]
fn cache_get(c: &moka::sync::Cache<String, CacheEntry>, key: &str) -> (r: Option<CacheEntry>) {
    c.get(key)
}

/// Relies on moka's `sync::Cache::insert`, which overwrites any entry
/// under the key.
#[verifier::external_body]
fn cache_insert(c: &moka::sync::Cache<String, CacheEntry>, key: String, entry: CacheEntry) {
    c.insert(key, entry)
}

/// Relies on moka's `sync::Cache::invalidate`, a no-op on an absent key.
#[verifier::external_body]
fn cache_invalidate(c: &moka::sync::Cache<String, CacheEntry>, key: &str) {
    c.invalidate(key)
}

/// Relies on moka's `Clone` for `sync::Cache`: the copy is a handle on the
/// same cache.
#[verifier::external_body]
fn cache_share(c: &moka::sync::Cache<String, CacheEntry>) -> (r: moka::sync::Cache<
    String,
    CacheEntry,
>) {
    c.clone()
}

/// A write that a handle hands to the shared cache.
pub enum CacheWrite {
    /// Store the entry under the key, replacing what was there.
    Insert(Seq<char>, EntryModel),
    /// Drop whatever is stored under the key.
    Invalidate(Seq<char>),
}

/// The cache after `writes`, applied in order to `m`, with nothing else
/// touching it meanwhile.
pub open spec fn apply_writes(m: Map<Seq<char>, EntryModel>, writes: Seq<CacheWrite>) -> Map<
    Seq<char>,
    EntryModel,
>
    decreases writes.len(),
{
    if writes.len() == 0 {
        m
    } else {
        let prior = apply_writes(m, writes.drop_last());
        match writes.last() {
            CacheWrite::Insert(k, e) => prior.insert(k, e),
            CacheWrite::Invalidate(k) => prior.remove(k),
        }
    }
}

/// The in-process cache of resolved entries, keyed by cache key, shared by
/// every request task and the invalidation listener. Entries unused for the
/// idle period leave it on their own; so may entries over its weight bound.
/// Each handle records, as ghost state, the writes it has handed over.
pub struct SharedCache {
    inner: moka::sync::Cache<String, CacheEntry>,
    issued: Ghost<Seq<CacheWrite>>,
}

/// The result of a terminal step, once carried out against the cache.
pub open spec fn step_outcome(step: StepModel) -> Result<(EntryModel, CacheStatus), ResolveError> {
    match step {
        StepModel::Store(e) => Ok((e, CacheStatus::Miss)),
        StepModel::Answer(e, st) => Ok((e, st)),
        StepModel::Fail(err) => Err(err),
        _ => Err(ResolveError::StoreUnavailable),
    }
}

/// The cache writes of a terminal step for `key`: a stored entry is
/// inserted; an answer from the cache and a failure write nothing.
pub open spec fn step_writes(key: Seq<char>, step: StepModel) -> Seq<CacheWrite> {
    match step {
        StepModel::Store(e) => seq![CacheWrite::Insert(key, e)],
        _ => Seq::empty(),
    }
}

/// A step that ends a resolution.
pub open spec fn is_terminal(step: StepModel) -> bool {
    !(step is FetchAsset) && !(step is FetchCard)
}

/// Carrying out a terminal step against a cache that only this resolution
/// touches leaves it as the resolution model says.
pub proof fn lemma_step_writes_follow_model(
    m: Map<Seq<char>, EntryModel>,
    key: Seq<char>,
    step: StepModel,
    reads: nat,
)
    requires
        is_terminal(step),
    ensures
        apply_writes(m, step_writes(key, step)) == conclude(step, m, key, reads).cache,
        step_outcome(step) == conclude(step, m, key, reads).outcome,
{
    let w = step_writes(key, step);
    if let StepModel::Store(e) = step {
        assert(w.drop_last() =~= Seq::<CacheWrite>::empty());
        assert(apply_writes(m, w.drop_last()) == m);
        assert(w.last() == CacheWrite::Insert(key, e));
        assert(apply_writes(m, w) == m.insert(key, e));
    } else {
        assert(w.len() == 0);
        assert(apply_writes(m, w) == m);
    }
}

impl SharedCache {
    /// The writes this handle has handed to the cache, oldest first.
    pub closed spec fn issued(&self) -> Seq<CacheWrite> {
        self.issued@
    }

    /// A cache with the given idle period and total weight bound.
    pub fn new(idle_secs: u64, max_weight: u64) -> (r: SharedCache)
        requires
            idle_secs <= MAX_IDLE_SECS,
        ensures
            r.issued() == Seq::<CacheWrite>::empty(),
    {
        SharedCache { inner: build_cache(idle_secs, max_weight), issued: Ghost(Seq::empty()) }
    }

    /// Another handle on the same cache, with no writes of its own yet.
    pub fn share(&self) -> (r: SharedCache)
        ensures
            r.issued() == Seq::<CacheWrite>::empty(),
    {
        SharedCache { inner: cache_share(&self.inner), issued: Ghost(Seq::empty()) }
    }

    /// The entry cached under `key`, if any.
    pub fn get(&self, key: &str) -> (r: Option<CacheEntry>) {
        cache_get(&self.inner, key)
    }

    /// Caches `entry` under `key`, replacing what was there.
    pub fn insert(&mut self, key: &str, entry: CacheEntry)
        ensures
            final(self).issued() == old(self).issued().push(CacheWrite::Insert(key@, entry@)),
    {
        proof {
            self.issued = Ghost(self.issued@.push(CacheWrite::Insert(key@, entry@)));
        }
        cache_insert(&self.inner, key.to_string(), entry);
    }

    /// Drops the entry under `key`, if there is one.
    pub fn invalidate(&mut self, key: &str)
        ensures
            final(self).issued() == old(self).issued().push(CacheWrite::Invalidate(key@)),
    {
        proof {
            self.issued = Ghost(self.issued@.push(CacheWrite::Invalidate(key@)));
        }
        cache_invalidate(&self.inner, key);
    }

    /// Handles one message of the invalidation channel: its payload, decoded
    /// lossily, is the key to drop. Returns that key.
    pub fn invalidate_payload(&mut self, payload: &[u8]) -> (r: String)
        ensures
            r@ == utf8_lossy(payload@),
            final(self).issued() == old(self).issued().push(CacheWrite::Invalidate(r@)),
    {
        let key = decode_lossy(payload);
        self.invalidate(key.as_str());
        key
    }

    /// First step of resolving `key`: a cached entry is answered as a hit,
    /// anything else goes to the durable store.
    pub fn lookup(&self, key: &str) -> (r: Step)
        ensures
            r@ is FetchAsset || r@ matches StepModel::Answer(_, CacheStatus::Hit),
    {
        on_cache_lookup(self.get(key))
    }

    /// Carries out a terminal step: a stored entry is written into the cache
    /// under `key` and answered as a miss; an answer is passed on; a failure
    /// is returned. Neither of the last two writes anything.
    pub fn complete(&mut self, key: &str, step: Step) -> (r: Result<
        (CacheEntry, CacheStatus),
        ResolveError,
    >)
        requires
            is_terminal(step@),
        ensures
            final(self).issued() == old(self).issued() + step_writes(key@, step@),
            match r {
                Ok((e, st)) => step_outcome(step@) == Ok::<(EntryModel, CacheStatus), ResolveError>(
                    (e@, st),
                ),
                Err(err) => step_outcome(step@) == Err::<(EntryModel, CacheStatus), ResolveError>(
                    err,
                ),
            },
    {
        match step {
            Step::Store(e) => {
                let stored = e.duplicate();
                self.insert(key, stored);
                assert(self.issued() =~= old(self).issued() + step_writes(key@, step@));
                Ok((e, CacheStatus::Miss))
            },
            Step::Answer(e, st) => {
                assert(self.issued() =~= old(self).issued() + step_writes(key@, step@));
                Ok((e, st))
            },
            Step::Fail(err) => {
                assert(self.issued() =~= old(self).issued() + step_writes(key@, step@));
                Err(err)
            },
            Step::FetchAsset => Err(ResolveError::StoreUnavailable),
            Step::FetchCard => Err(ResolveError::StoreUnavailable),
        }
    }
}

} // verus!
