use vstd::prelude::*;

verus! {

/// Weight charged for a card entry: the in-memory size of its four string
/// handles.
pub const CARD_WEIGHT: u32 = 96;

/// A link card: a redirect target and how it is presented in embeds.
#[derive(Clone, Debug)]
pub struct Card {
    pub title: String,
    pub cta: String,
    pub url: String,
    pub color: String,
}

/// What a cache key resolves to.
#[derive(Clone, Debug)]
pub enum CacheEntry {
    /// Neither an asset nor a card exists for the key.
    Empty,
    /// A binary resource: its content type and its bytes.
    Asset(String, Vec<u8>),
    /// A link card.
    Card(Card),
}

/// The mathematical value of a card.
pub struct CardModel {
    pub title: Seq<char>,
    pub cta: Seq<char>,
    pub url: Seq<char>,
    pub color: Seq<char>,
}

/// The mathematical value of a cache entry.
pub enum EntryModel {
    Empty,
    Asset { mime: Seq<char>, body: Seq<u8> },
    Card { card: CardModel },
}

impl View for Card {
    type V = CardModel;

    open spec fn view(&self) -> CardModel {
        CardModel { title: self.title@, cta: self.cta@, url: self.url@, color: self.color@ }
    }
}

impl View for CacheEntry {
    type V = EntryModel;

    open spec fn view(&self) -> EntryModel {
        match self {
            CacheEntry::Empty => EntryModel::Empty,
            CacheEntry::Asset(mime, body) => EntryModel::Asset { mime: mime@, body: body@ },
            CacheEntry::Card(card) => EntryModel::Card { card: card@ },
        }
    }
}

/// The capacity cost of an entry: nothing for a negative result, the size
/// of content type (in UTF-8 bytes) and body for an asset (saturating at the largest `u32`),
/// and a fixed unit for a card.
pub open spec fn weight_of(e: EntryModel) -> nat {
    match e {
        EntryModel::Empty => 0,
        EntryModel::Asset { mime, body } => {
            let total = vstd::utf8::encode_utf8(mime).len() + body.len();
            if total > u32::MAX { u32::MAX as nat } else { total }
        },
        EntryModel::Card { .. } => CARD_WEIGHT as nat,
    }
}

impl Card {
    /// Copies the card field by field.
    pub fn duplicate(&self) -> (r: Card)
        ensures
            r@ == self@,
    {
        Card {
            title: self.title.clone(),
            cta: self.cta.clone(),
            url: self.url.clone(),
            color: self.color.clone(),
        }
    }
}

impl CacheEntry {
    /// Copies the entry, with a contract on the copy.
    pub fn duplicate(&self) -> (r: CacheEntry)
        ensures
            r@ == self@,
    {
        match self {
            CacheEntry::Empty => CacheEntry::Empty,
            CacheEntry::Asset(mime, body) => CacheEntry::Asset(mime.clone(), body.clone()),
            CacheEntry::Card(card) => CacheEntry::Card(card.duplicate()),
        }
    }

    /// The capacity cost of this entry (see `weight_of`).
    pub fn weight(&self) -> (r: u32)
        ensures
            r as nat == weight_of(self@),
    {
        match self {
            CacheEntry::Empty => 0,
            CacheEntry::Asset(mime, body) => {
                let m: usize = mime.as_str().as_bytes().len();
                let b: usize = body.len();
                if m as u64 >= u32::MAX as u64 || b as u64 >= u32::MAX as u64 - m as u64 {
                    u32::MAX
                } else {
                    (m + b) as u32
                }
            },
            CacheEntry::Card(_) => CARD_WEIGHT,
        }
    }
}

} // verus!
