use std::cell::Cell;
use std::collections::HashMap;

use site_embed::cache::SharedCache;
use site_embed::entry::{CacheEntry, Card};
use site_embed::error::ResolveError;
use site_embed::path::{asset_key, card_key, normalize_path};
use site_embed::record::parse_asset;
use site_embed::render::{render, Reply, ReplyBody};
use site_embed::resolver::{
    on_asset_reply, on_cache_lookup, on_card_reply, AssetReply, CacheStatus, CardReply, Step,
};

/// A durable store double that counts its reads.
struct Store {
    records: HashMap<String, Vec<u8>>,
    reads: Cell<usize>,
}

impl Store {
    fn new() -> Store {
        Store { records: HashMap::new(), reads: Cell::new(0) }
    }

    fn put(&mut self, key: &str, value: &[u8]) {
        self.records.insert(key.to_string(), value.to_vec());
    }

    fn read(&self, key: &str) -> Option<Vec<u8>> {
        self.reads.set(self.reads.get() + 1);
        self.records.get(key).cloned()
    }
}

fn parse_card(text: &str) -> CardReply {
    let v: serde_json::Value = match serde_json::from_str(text) {
        Ok(v) => v,
        Err(_) => return CardReply::Malformed,
    };
    let field = |name: &str| v.get(name).and_then(|x| x.as_str()).map(|s| s.to_string());
    match (field("title"), field("cta"), field("url"), field("color")) {
        (Some(title), Some(cta), Some(url), Some(color)) => {
            CardReply::Found(Card { title, cta, url, color })
        }
        _ => CardReply::Malformed,
    }
}

fn resolve(
    cache: &mut SharedCache,
    store: &Store,
    path: &str,
) -> Result<(CacheEntry, CacheStatus), ResolveError> {
    let key = normalize_path(path);
    let mut step = cache.lookup(&key);
    loop {
        step = match step {
            Step::FetchAsset => on_asset_reply(match store.read(&asset_key(&key)) {
                Some(raw) => AssetReply::Found(raw),
                None => AssetReply::Absent,
            }),
            Step::FetchCard => on_card_reply(match store.read(&card_key(&key)) {
                Some(raw) => parse_card(&String::from_utf8_lossy(&raw)),
                None => CardReply::Absent,
            }),
            done => return cache.complete(&key, done),
        };
    }
}

fn request(cache: &mut SharedCache, store: &Store, path: &str, ua: Option<&str>) -> Reply {
    let (entry, status) = resolve(cache, store, path).expect("resolution failed");
    render(&entry, status, ua, "https://embed.test")
}

fn new_cache() -> SharedCache {
    SharedCache::new(3600, 1 << 30)
}

fn promo_store() -> Store {
    let mut store = Store::new();
    store.put(
        "card:promo",
        br##"{"title":"Sale","cta":"Shop","url":"https://x.test/s","color":"#ff0000"}"##,
    );
    store
}

fn text_of(reply: &Reply) -> String {
    match &reply.body {
        ReplyBody::Text(t) => t.clone(),
        ReplyBody::Bytes(b) => String::from_utf8_lossy(b).to_string(),
    }
}

#[test]
fn asset_round_trip() {
    let mut store = Store::new();
    store.put("asset:logo", b"image/png;\x89PNG\r\n\x1a\n\x00");
    let mut cache = new_cache();
    let first = request(&mut cache, &store, "/logo", None);
    assert_eq!(first.status, 200);
    assert_eq!(first.content_type.as_deref(), Some("image/png"));
    assert_eq!(first.cache_status, CacheStatus::Miss);
    match &first.body {
        ReplyBody::Bytes(b) => assert_eq!(b, &b"\x89PNG\r\n\x1a\n\x00".to_vec()),
        _ => panic!("asset body must be bytes"),
    }
    let second = request(&mut cache, &store, "/logo", None);
    assert_eq!(second.cache_status, CacheStatus::Hit);
    match (&first.body, &second.body) {
        (ReplyBody::Bytes(a), ReplyBody::Bytes(b)) => assert_eq!(a, b),
        _ => panic!("asset body must be bytes"),
    }
    assert_eq!(store.reads.get(), 1);
}

#[test]
fn card_redirects_browsers() {
    let store = promo_store();
    let mut cache = new_cache();
    let reply = request(&mut cache, &store, "/promo", Some("Mozilla/5.0"));
    assert_eq!(reply.status, 308);
    assert_eq!(reply.location.as_deref(), Some("https://x.test/s"));
    assert_eq!(reply.cache_status, CacheStatus::Miss);
    let no_agent = request(&mut cache, &store, "/promo", None);
    assert_eq!(no_agent.status, 308);
    assert_eq!(no_agent.cache_status, CacheStatus::Hit);
}

#[test]
fn card_embeds_for_crawler() {
    let store = promo_store();
    let mut cache = new_cache();
    let reply = request(
        &mut cache,
        &store,
        "/promo",
        Some("Mozilla/5.0 (compatible; Discordbot/2.0; +https://discordapp.com)"),
    );
    assert_eq!(reply.status, 200);
    assert_eq!(reply.content_type.as_deref(), Some("text/html"));
    let page = text_of(&reply);
    assert!(page.contains(r##"<meta name="theme-color" content="#ff0000">"##));
    let start = page.find("/_/oembed.json?").unwrap() + "/_/oembed.json?".len();
    let end = start + page[start..].find('"').unwrap();
    assert!(page.contains("https://embed.test/_/oembed.json?"));
    let query: Vec<(String, String)> = serde_urlencoded::from_str(&page[start..end]).unwrap();
    assert!(query.contains(&("provider_name".to_string(), "Shop".to_string())));
    assert!(query.contains(&("author_name".to_string(), "Sale".to_string())));
    assert!(query.contains(&("provider_url".to_string(), "https://x.test/s".to_string())));
    assert!(page.contains(r#"<script>location.href = "https://x.test/s"</script>"#));
    assert!(page.contains(r#"<a href="https://x.test/s">https://x.test/s</a>"#));
}

#[test]
fn negative_result_is_cached() {
    let store = Store::new();
    let mut cache = new_cache();
    let first = request(&mut cache, &store, "/nothing", None);
    assert_eq!(first.status, 404);
    assert_eq!(first.cache_status, CacheStatus::Miss);
    assert_eq!(store.reads.get(), 2);
    let second = request(&mut cache, &store, "/nothing", None);
    assert_eq!(second.status, 404);
    assert_eq!(second.cache_status, CacheStatus::Hit);
    assert_eq!(store.reads.get(), 2);
}

#[test]
fn invalidation_forces_a_miss() {
    let store = promo_store();
    let mut cache = new_cache();
    request(&mut cache, &store, "/promo", None);
    let hit = request(&mut cache, &store, "/promo", None);
    assert_eq!(hit.cache_status, CacheStatus::Hit);
    let reads = store.reads.get();
    let key = cache.invalidate_payload(b"promo");
    assert_eq!(key, "promo");
    let after = request(&mut cache, &store, "/promo", None);
    assert_eq!(after.cache_status, CacheStatus::Miss);
    assert!(store.reads.get() > reads);
}

#[test]
fn invalidating_an_absent_key_is_harmless() {
    let mut cache = new_cache();
    cache.invalidate("never-cached");
    assert!(cache.get("never-cached").is_none());
}

#[test]
fn repeated_resolution_is_byte_identical() {
    let store = promo_store();
    let mut cache = new_cache();
    let ua = Some("Discordbot");
    let a = request(&mut cache, &store, "promo", ua);
    let b = request(&mut cache, &store, "promo", ua);
    assert_eq!(text_of(&a), text_of(&b));
    assert_eq!(a.cache_status, CacheStatus::Miss);
    assert_eq!(b.cache_status, CacheStatus::Hit);
}

#[test]
fn malformed_asset_is_not_cached() {
    let mut store = Store::new();
    store.put("asset:bad", b"nodlimiterhere");
    let mut cache = new_cache();
    assert_eq!(resolve(&mut cache, &store, "/bad").err(), Some(ResolveError::MalformedRecord));
    assert_eq!(store.reads.get(), 1);
    assert_eq!(resolve(&mut cache, &store, "/bad").err(), Some(ResolveError::MalformedRecord));
    assert_eq!(store.reads.get(), 2);
    assert!(cache.get("bad").is_none());
}

#[test]
fn malformed_card_is_not_cached() {
    let mut store = Store::new();
    store.put("card:broken", b"{\"title\": 3");
    let mut cache = new_cache();
    assert_eq!(resolve(&mut cache, &store, "broken").err(), Some(ResolveError::MalformedRecord));
    assert!(cache.get("broken").is_none());
}

#[test]
fn asset_takes_priority_over_card() {
    let mut store = promo_store();
    store.put("asset:promo", b"text/plain;hello");
    let mut cache = new_cache();
    let reply = request(&mut cache, &store, "/promo/", None);
    assert_eq!(reply.status, 200);
    assert_eq!(reply.content_type.as_deref(), Some("text/plain"));
    assert_eq!(store.reads.get(), 1);
}

#[test]
fn cache_hit_step_answers_directly() {
    match on_cache_lookup(Some(CacheEntry::Empty)) {
        Step::Answer(CacheEntry::Empty, CacheStatus::Hit) => {}
        other => panic!("unexpected step {:?}", other),
    }
    assert!(matches!(on_cache_lookup(None), Step::FetchAsset));
}

#[test]
fn store_outage_fails_each_stage() {
    assert!(matches!(
        on_asset_reply(AssetReply::Unavailable),
        Step::Fail(ResolveError::StoreUnavailable)
    ));
    assert!(matches!(
        on_card_reply(CardReply::Unavailable),
        Step::Fail(ResolveError::StoreUnavailable)
    ));
    assert!(matches!(on_asset_reply(AssetReply::Absent), Step::FetchCard));
    assert!(matches!(on_card_reply(CardReply::Absent), Step::Store(CacheEntry::Empty)));
    let mut cache = new_cache();
    let r = cache.complete("down", on_asset_reply(AssetReply::Unavailable));
    assert_eq!(r.err(), Some(ResolveError::StoreUnavailable));
    assert!(cache.get("down").is_none());
}

#[test]
fn asset_record_splits_at_first_delimiter() {
    match parse_asset(b"text/plain;a;b;c") {
        Ok(CacheEntry::Asset(mime, body)) => {
            assert_eq!(mime, "text/plain");
            assert_eq!(body, b"a;b;c".to_vec());
        }
        _ => panic!("expected an asset"),
    }
    match parse_asset(b";") {
        Ok(CacheEntry::Asset(mime, body)) => {
            assert_eq!(mime, "");
            assert!(body.is_empty());
        }
        _ => panic!("expected an asset"),
    }
    assert_eq!(parse_asset(b"").err(), Some(ResolveError::MalformedRecord));
    assert_eq!(parse_asset(b"nodlimiterhere").err(), Some(ResolveError::MalformedRecord));
}

#[test]
fn asset_mime_is_decoded_lossily() {
    match parse_asset(b"im\xffage;x") {
        Ok(CacheEntry::Asset(mime, _)) => assert_eq!(mime, "im\u{FFFD}age"),
        _ => panic!("expected an asset"),
    }
}

#[test]
fn paths_are_trimmed_of_separators() {
    assert_eq!(normalize_path("/logo"), "logo");
    assert_eq!(normalize_path("//a/b//"), "a/b");
    assert_eq!(normalize_path("///"), "");
    assert_eq!(normalize_path(""), "");
    assert_eq!(normalize_path("plain"), "plain");
    assert_eq!(asset_key("logo"), "asset:logo");
    assert_eq!(card_key("promo"), "card:promo");
}

#[test]
fn entry_weights() {
    assert_eq!(CacheEntry::Empty.weight(), 0);
    assert_eq!(CacheEntry::Asset("image/png".to_string(), vec![0u8; 9]).weight(), 18);
    let card = Card {
        title: "t".to_string(),
        cta: "c".to_string(),
        url: "u".to_string(),
        color: "#000".to_string(),
    };
    assert_eq!(CacheEntry::Card(card).weight(), 96);
}

#[test]
fn shared_handles_see_the_same_cache() {
    let mut cache = new_cache();
    let mut other = cache.share();
    cache.insert("k", CacheEntry::Empty);
    assert!(matches!(other.get("k"), Some(CacheEntry::Empty)));
    other.insert("k", CacheEntry::Asset("a/b".to_string(), vec![1]));
    assert!(matches!(cache.get("k"), Some(CacheEntry::Asset(_, _))));
    other.invalidate("k");
    assert!(cache.get("k").is_none());
}
