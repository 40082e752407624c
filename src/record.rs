use vstd::prelude::*;
use vstd::slice::slice_subrange;

use crate::entry::{CacheEntry, EntryModel};
use crate::error::ResolveError;

verus! {

/// The text that lossy UTF-8 decoding makes of `b`.
pub uninterp spec fn utf8_lossy(b: Seq<u8>) -> Seq<char>;

/// Every byte of `b` is ASCII.
pub open spec fn ascii_bytes(b: Seq<u8>) -> bool {
    forall|i: int| 0 <= i < b.len() ==> b[i] < 128
}

/// Relies on `String::from_utf8_lossy`: the decoding depends on the bytes
/// alone, and valid UTF-8 (ASCII in particular) comes back unchanged.
#[verifier::external_body]
pub(crate) fn decode_lossy(b: &[u8]) -> (r: String)
    ensures
        r@ == utf8_lossy(b@),
        ascii_bytes(b@) ==> r@ == b@.map_values(|x: u8| x as char),
{
    String::from_utf8_lossy(b).into_owned()
}

/// The byte that separates an asset's content type from its body.
pub const DELIMITER: u8 = 59;

/// `i` is the position of the first delimiter in `raw`.
pub open spec fn first_delimiter(raw: Seq<u8>, i: int) -> bool {
    0 <= i < raw.len() && raw[i] == DELIMITER && forall|j: int| 0 <= j < i ==> raw[j] != DELIMITER
}

/// `raw` holds a delimiter somewhere.
pub open spec fn has_delimiter(raw: Seq<u8>) -> bool {
    exists|i: int| 0 <= i < raw.len() && raw[i] == DELIMITER
}

/// The asset entry that a record with its first delimiter at `i` stands for.
pub open spec fn asset_at(raw: Seq<u8>, i: int) -> EntryModel {
    EntryModel::Asset {
        mime: utf8_lossy(raw.subrange(0, i)),
        body: raw.subrange(i + 1, raw.len() as int),
    }
}

/// The asset entry that a record holding a delimiter stands for.
pub open spec fn asset_entry(raw: Seq<u8>) -> EntryModel {
    asset_at(raw, choose|i: int| first_delimiter(raw, i))
}

/// A record has at most one first delimiter.
pub proof fn lemma_first_delimiter_unique(raw: Seq<u8>, i: int, j: int)
    requires
        first_delimiter(raw, i),
        first_delimiter(raw, j),
    ensures
        i == j,
{
    if i < j {
        assert(raw[i] != DELIMITER);
    } else if j < i {
        assert(raw[j] != DELIMITER);
    }
}

/// Decodes a raw asset record `<mime>;<body>`: the first delimiter splits it,
/// and the body may hold further delimiters. A record without one is
/// malformed.
pub fn parse_asset(raw: &[u8]) -> (r: Result<CacheEntry, ResolveError>)
    ensures
        r is Ok <==> has_delimiter(raw@),
        r matches Err(e) ==> e == ResolveError::MalformedRecord,
        r matches Ok(e) ==> e@ == asset_entry(raw@),
{
    let n: usize = raw.len();
    let mut i: usize = 0;
    while i < n && raw[i] != DELIMITER
        invariant
            n == raw@.len(),
            i <= n,
            forall|j: int| 0 <= j < i ==> raw@[j] != DELIMITER,
        decreases n - i,
    {
        i = i + 1;
    }
    if i == n {
        return Err(ResolveError::MalformedRecord);
    }
    let mime = decode_lossy(slice_subrange(raw, 0, i));
    let mut body: Vec<u8> = Vec::new();
    let mut k: usize = i + 1;
    while k < n
        invariant
            n == raw@.len(),
            i < k <= n,
            body@ == raw@.subrange(i + 1, k as int),
        decreases n - k,
    {
        body.push(raw[k]);
        k = k + 1;
        assert(body@ == raw@.subrange(i + 1, k as int));
    }
    let e = CacheEntry::Asset(mime, body);
    assert(first_delimiter(raw@, i as int));
    proof {
        let c = choose|j: int| first_delimiter(raw@, j);
        lemma_first_delimiter_unique(raw@, i as int, c);
    }
    Ok(e)
}

} // verus!
