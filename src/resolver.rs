use vstd::prelude::*;

use crate::entry::{Card, CardModel, CacheEntry, EntryModel};
use crate::error::ResolveError;
use crate::record::{asset_entry, has_delimiter, parse_asset};

verus! {

/// Whether an answer came from the cache or from the durable store.
#[derive(Clone, Copy, Debug, PartialEq, Eq, Structural)]
pub enum CacheStatus {
    Hit,
    Miss,
}

impl CacheStatus {
    /// The value of the diagnostic cache-status header.
    pub fn as_str(&self) -> (r: &'static str)
        ensures
            *self == CacheStatus::Hit ==> r@ == "hit"@,
            *self == CacheStatus::Miss ==> r@ == "miss"@,
    {
        match self {
            CacheStatus::Hit => "hit",
            CacheStatus::Miss => "miss",
        }
    }
}

/// What the durable store answered to a read of an asset record.
#[derive(Debug)]
pub enum AssetReply {
    /// The store could not be reached or the call failed.
    Unavailable,
    /// No record under the key.
    Absent,
    /// The raw record.
    Found(Vec<u8>),
}

/// What the durable store answered to a read of a card record, once the
/// record's text has been parsed against the card schema.
#[derive(Debug)]
pub enum CardReply {
    Unavailable,
    Absent,
    /// A record exists but does not parse as a card.
    Malformed,
    Found(Card),
}

/// The next thing a resolution does.
#[derive(Debug)]
pub enum Step {
    /// Read the asset record of the key from the durable store.
    FetchAsset,
    /// Read the card record of the key from the durable store.
    FetchCard,
    /// Write the entry into the cache under the key, then answer it as a miss.
    Store(CacheEntry),
    /// Answer the entry, taken from the cache.
    Answer(CacheEntry, CacheStatus),
    /// Fail without touching the cache.
    Fail(ResolveError),
}

pub enum AssetReplyModel {
    Unavailable,
    Absent,
    Found(Seq<u8>),
}

pub enum CardReplyModel {
    Unavailable,
    Absent,
    Malformed,
    Found(CardModel),
}

pub enum StepModel {
    FetchAsset,
    FetchCard,
    Store(EntryModel),
    Answer(EntryModel, CacheStatus),
    Fail(ResolveError),
}

impl View for AssetReply {
    type V = AssetReplyModel;

    open spec fn view(&self) -> AssetReplyModel {
        match self {
            AssetReply::Unavailable => AssetReplyModel::Unavailable,
            AssetReply::Absent => AssetReplyModel::Absent,
            AssetReply::Found(raw) => AssetReplyModel::Found(raw@),
        }
    }
}

impl View for CardReply {
    type V = CardReplyModel;

    open spec fn view(&self) -> CardReplyModel {
        match self {
            CardReply::Unavailable => CardReplyModel::Unavailable,
            CardReply::Absent => CardReplyModel::Absent,
            CardReply::Malformed => CardReplyModel::Malformed,
            CardReply::Found(c) => CardReplyModel::Found(c@),
        }
    }
}

impl View for Step {
    type V = StepModel;

    open spec fn view(&self) -> StepModel {
        match self {
            Step::FetchAsset => StepModel::FetchAsset,
            Step::FetchCard => StepModel::FetchCard,
            Step::Store(e) => StepModel::Store(e@),
            Step::Answer(e, s) => StepModel::Answer(e@, *s),
            Step::Fail(err) => StepModel::Fail(*err),
        }
    }
}

/// The value of what a cache lookup returned.
pub open spec fn cached_view(c: Option<CacheEntry>) -> Option<EntryModel> {
    match c {
        Some(e) => Some(e@),
        None => None,
    }
}

/// A cached entry is answered as a hit; a miss goes to the asset record.
pub open spec fn after_lookup(cached: Option<EntryModel>) -> StepModel {
    match cached {
        Some(e) => StepModel::Answer(e, CacheStatus::Hit),
        None => StepModel::FetchAsset,
    }
}

/// An asset record wins outright; only its absence leads to the card record.
pub open spec fn after_asset(reply: AssetReplyModel) -> StepModel {
    match reply {
        AssetReplyModel::Unavailable => StepModel::Fail(ResolveError::StoreUnavailable),
        AssetReplyModel::Absent => StepModel::FetchCard,
        AssetReplyModel::Found(raw) => if has_delimiter(raw) {
            StepModel::Store(asset_entry(raw))
        } else {
            StepModel::Fail(ResolveError::MalformedRecord)
        },
    }
}

/// A card is stored; with no card either, the negative result is stored.
pub open spec fn after_card(reply: CardReplyModel) -> StepModel {
    match reply {
        CardReplyModel::Unavailable => StepModel::Fail(ResolveError::StoreUnavailable),
        CardReplyModel::Absent => StepModel::Store(EntryModel::Empty),
        CardReplyModel::Malformed => StepModel::Fail(ResolveError::MalformedRecord),
        CardReplyModel::Found(c) => StepModel::Store(EntryModel::Card { card: c }),
    }
}

/// First step of resolving a key, given what the cache holds for it.
pub fn on_cache_lookup(cached: Option<CacheEntry>) -> (r: Step)
    ensures
        r@ == after_lookup(cached_view(cached)),
{
    match cached {
        Some(e) => Step::Answer(e, CacheStatus::Hit),
        None => Step::FetchAsset,
    }
}

/// Step after the durable store answered the asset read.
pub fn on_asset_reply(reply: AssetReply) -> (r: Step)
    ensures
        r@ == after_asset(reply@),
{
    match reply {
        AssetReply::Unavailable => Step::Fail(ResolveError::StoreUnavailable),
        AssetReply::Absent => Step::FetchCard,
        AssetReply::Found(raw) => match parse_asset(raw.as_slice()) {
            Ok(e) => Step::Store(e),
            Err(err) => Step::Fail(err),
        },
    }
}

/// Step after the durable store answered the card read.
pub fn on_card_reply(reply: CardReply) -> (r: Step)
    ensures
        r@ == after_card(reply@),
{
    match reply {
        CardReply::Unavailable => Step::Fail(ResolveError::StoreUnavailable),
        CardReply::Absent => Step::Store(CacheEntry::Empty),
        CardReply::Malformed => Step::Fail(ResolveError::MalformedRecord),
        CardReply::Found(c) => Step::Store(CacheEntry::Card(c)),
    }
}

/// A snapshot of the durable store: the raw asset records, and for each
/// card record the card it parses to (`None` where it does not parse).
pub struct StoreModel {
    pub assets: Map<Seq<char>, Seq<u8>>,
    pub cards: Map<Seq<char>, Option<CardModel>>,
}

/// What reading the asset record of `key` from `store` answers.
pub open spec fn asset_read(store: StoreModel, key: Seq<char>) -> AssetReplyModel {
    if store.assets.contains_key(key) {
        AssetReplyModel::Found(store.assets[key])
    } else {
        AssetReplyModel::Absent
    }
}

/// What reading the card record of `key` from `store` answers.
pub open spec fn card_read(store: StoreModel, key: Seq<char>) -> CardReplyModel {
    if store.cards.contains_key(key) {
        match store.cards[key] {
            Some(c) => CardReplyModel::Found(c),
            None => CardReplyModel::Malformed,
        }
    } else {
        CardReplyModel::Absent
    }
}

/// What the cache holds for `key`.
pub open spec fn cache_read(cache: Map<Seq<char>, EntryModel>, key: Seq<char>) -> Option<
    EntryModel,
> {
    if cache.contains_key(key) {
        Some(cache[key])
    } else {
        None
    }
}

/// A complete resolution: its outcome, the cache after it, and how many
/// durable-store reads it made.
pub struct Resolution {
    pub outcome: Result<(EntryModel, CacheStatus), ResolveError>,
    pub cache: Map<Seq<char>, EntryModel>,
    pub reads: nat,
}

/// Carries out a terminal step against the cache.
pub open spec fn conclude(
    step: StepModel,
    cache: Map<Seq<char>, EntryModel>,
    key: Seq<char>,
    reads: nat,
) -> Resolution {
    match step {
        StepModel::Store(e) => Resolution {
            outcome: Ok((e, CacheStatus::Miss)),
            cache: cache.insert(key, e),
            reads,
        },
        StepModel::Answer(e, st) => Resolution { outcome: Ok((e, st)), cache, reads },
        StepModel::Fail(err) => Resolution { outcome: Err(err), cache, reads },
        _ => Resolution { outcome: Err(ResolveError::StoreUnavailable), cache, reads },
    }
}

/// Resolving `key` by the steps above, against a cache and a store that no
/// one else touches meanwhile.
pub open spec fn resolve(
    cache: Map<Seq<char>, EntryModel>,
    store: StoreModel,
    key: Seq<char>,
) -> Resolution {
    match after_lookup(cache_read(cache, key)) {
        StepModel::FetchAsset => match after_asset(asset_read(store, key)) {
            StepModel::FetchCard => conclude(after_card(card_read(store, key)), cache, key, 2),
            s => conclude(s, cache, key, 1),
        },
        s => conclude(s, cache, key, 0),
    }
}

/// An asset record takes precedence over a card record under the same key:
/// a miss on a key with a well-formed asset record answers the asset and
/// never reads the card record.
pub proof fn lemma_asset_wins(
    cache: Map<Seq<char>, EntryModel>,
    store: StoreModel,
    key: Seq<char>,
)
    requires
        !cache.contains_key(key),
        store.assets.contains_key(key),
        has_delimiter(store.assets[key]),
    ensures
        resolve(cache, store, key).outcome == Ok::<(EntryModel, CacheStatus), ResolveError>(
            (asset_entry(store.assets[key]), CacheStatus::Miss),
        ),
        resolve(cache, store, key).reads == 1,
{
}

/// A key with neither record resolves to the empty entry as a miss; the
/// negative result is cached, so the next resolution is a hit that reads
/// nothing from the store.
pub proof fn lemma_negative_result_cached(
    cache: Map<Seq<char>, EntryModel>,
    store: StoreModel,
    key: Seq<char>,
)
    requires
        !cache.contains_key(key),
        !store.assets.contains_key(key),
        !store.cards.contains_key(key),
    ensures
        resolve(cache, store, key).outcome == Ok::<(EntryModel, CacheStatus), ResolveError>(
            (EntryModel::Empty, CacheStatus::Miss),
        ),
        resolve(resolve(cache, store, key).cache, store, key).outcome == Ok::<
            (EntryModel, CacheStatus),
            ResolveError,
        >((EntryModel::Empty, CacheStatus::Hit)),
        resolve(resolve(cache, store, key).cache, store, key).reads == 0,
{
    assert(resolve(cache, store, key).cache.contains_key(key));
}

/// After the key is invalidated, resolving it is never a hit: it reads the
/// durable store again.
pub proof fn lemma_invalidated_key_misses(
    cache: Map<Seq<char>, EntryModel>,
    store: StoreModel,
    key: Seq<char>,
)
    ensures
        resolve(cache.remove(key), store, key).reads >= 1,
        resolve(cache.remove(key), store, key).outcome matches Ok((_, st)) ==> st
            == CacheStatus::Miss,
{
    assert(!cache.remove(key).contains_key(key));
}

/// Resolving a key twice with no invalidation in between answers the same
/// entry both times, the second time from the cache.
pub proof fn lemma_resolve_idempotent(
    cache: Map<Seq<char>, EntryModel>,
    store: StoreModel,
    key: Seq<char>,
)
    ensures
        resolve(cache, store, key).outcome matches Ok((e, _)) ==> resolve(
            resolve(cache, store, key).cache,
            store,
            key,
        ).outcome == Ok::<(EntryModel, CacheStatus), ResolveError>((e, CacheStatus::Hit)),
{
    let r = resolve(cache, store, key);
    if r.outcome is Ok {
        assert(r.cache.contains_key(key));
    }
}

/// A failed resolution leaves the cache as it was, so the next request reads
/// the store again; an asset record without its delimiter fails so.
pub proof fn lemma_failure_not_cached(
    cache: Map<Seq<char>, EntryModel>,
    store: StoreModel,
    key: Seq<char>,
)
    ensures
        resolve(cache, store, key).outcome is Err ==> resolve(cache, store, key).cache == cache,
        !cache.contains_key(key) && store.assets.contains_key(key) && !has_delimiter(
            store.assets[key],
        ) ==> resolve(cache, store, key).outcome == Err::<(EntryModel, CacheStatus), ResolveError>(
            ResolveError::MalformedRecord,
        ) && resolve(resolve(cache, store, key).cache, store, key).reads >= 1,
{
}

} // verus!
