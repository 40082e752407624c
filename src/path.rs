use vstd::prelude::*;
use vstd::string::StrSliceExecFns;
use vstd::string::StringExecFns;

verus! {

/// Every character of `s` is the path separator.
pub open spec fn all_separators(s: Seq<char>) -> bool {
    forall|i: int| 0 <= i < s.len() ==> s[i] == '/'
}

/// `r` is `s` with every leading and trailing `/` removed.
pub open spec fn is_trimmed(s: Seq<char>, r: Seq<char>) -> bool {
    exists|lo: int, hi: int|
        0 <= lo <= hi <= s.len() && r == s.subrange(lo, hi) && all_separators(s.subrange(0, lo))
            && all_separators(s.subrange(hi, s.len() as int)) && (lo < hi ==> s[lo] != '/' && s[hi
            - 1] != '/')
}

/// The cache key of a request path: the path with its leading and trailing
/// separators stripped.
pub fn normalize_path(path: &str) -> (r: String)
    ensures
        is_trimmed(path@, r@),
{
    let n: usize = path.unicode_len();
    let mut lo: usize = 0;
    while lo < n && path.get_char(lo) == '/'
        invariant
            n == path@.len(),
            lo <= n,
            all_separators(path@.subrange(0, lo as int)),
        decreases n - lo,
    {
        lo = lo + 1;
    }
    let mut hi: usize = n;
    while hi > lo && path.get_char(hi - 1) == '/'
        invariant
            n == path@.len(),
            lo <= hi <= n,
            all_separators(path@.subrange(hi as int, n as int)),
        decreases hi - lo,
    {
        let ghost prev = hi as int;
        hi = hi - 1;
        assert forall|i: int| 0 <= i < n - hi implies path@.subrange(hi as int, n as int)[i]
            == '/' by {
            if i > 0 {
                assert(path@.subrange(hi as int, n as int)[i] == path@.subrange(prev, n as int)[i
                    - 1]);
            }
        }
    }
    let r = String::from_str(path.substring_char(lo, hi));
    assert(is_trimmed(path@, r@)) by {
        assert(lo < hi ==> path@[lo as int] != '/' && path@[hi - 1] != '/');
    }
    r
}

/// The durable-store key of the asset record for a cache key.
pub fn asset_key(key: &str) -> (r: String)
    ensures
        r@ == "asset:"@ + key@,
{
    let mut r = String::from_str("asset:");
    r.append(key);
    r
}

/// The durable-store key of the card record for a cache key.
pub fn card_key(key: &str) -> (r: String)
    ensures
        r@ == "card:"@ + key@,
{
    let mut r = String::from_str("card:");
    r.append(key);
    r
}

} // verus!
