use vstd::prelude::*;
use vstd::string::StrSliceExecFns;
use vstd::string::StringExecFns;

use crate::entry::{Card, CardModel, CacheEntry, EntryModel};
use crate::resolver::CacheStatus;

verus! {

/// `pat` occurs in `s` as a contiguous run of characters.
pub open spec fn contains_seq(s: Seq<char>, pat: Seq<char>) -> bool {
    exists|i: int| 0 <= i && i + pat.len() <= s.len() && #[trigger] s.subrange(i, i + pat.len()) == pat
}

/// Relies on `str::contains` with a string pattern: true exactly when the
/// pattern matches a sub-slice of the text.
#[verifier::external_body]
fn text_contains(text: &str, pat: &str) -> (r: bool)
    ensures
        r == contains_seq(text@, pat@),
{
    text.contains(pat)
}

/// A byte that form encoding writes as it is: `*`, `-`, `.`, `_`, ASCII
/// digits and letters.
pub open spec fn form_keeps(b: u8) -> bool {
    b == 42 || b == 45 || b == 46 || b == 95 || (48 <= b <= 57) || (65 <= b <= 90) || (97 <= b
        <= 122)
}

/// Upper-case hexadecimal digit of `n < 16`.
pub open spec fn hex_digit(n: int) -> char {
    seq!['0', '1', '2', '3', '4', '5', '6', '7', '8', '9', 'A', 'B', 'C', 'D', 'E', 'F'][n]
}

/// Form encoding of one byte: kept, `+` for a space, else `%XX`.
pub open spec fn form_byte(b: u8) -> Seq<char> {
    if form_keeps(b) {
        seq![b as char]
    } else if b == 32 {
        seq!['+']
    } else {
        seq!['%', hex_digit(b as int / 16), hex_digit(b as int % 16)]
    }
}

/// Form encoding of a byte string, byte by byte.
pub open spec fn form_bytes(bs: Seq<u8>) -> Seq<char>
    decreases bs.len(),
{
    if bs.len() == 0 {
        Seq::empty()
    } else {
        form_bytes(bs.drop_last()) + form_byte(bs.last())
    }
}

/// Form encoding of one pair: `name=value`, each of its UTF-8 bytes encoded.
pub open spec fn form_pair(p: (Seq<char>, Seq<char>)) -> Seq<char> {
    form_bytes(vstd::utf8::encode_utf8(p.0)) + seq!['='] + form_bytes(vstd::utf8::encode_utf8(p.1))
}

/// The `application/x-www-form-urlencoded` serialisation of a sequence of
/// name/value pairs: the encoded pairs joined by `&`.
pub open spec fn form_encoded(pairs: Seq<(Seq<char>, Seq<char>)>) -> Seq<char>
    decreases pairs.len(),
{
    if pairs.len() == 0 {
        Seq::empty()
    } else if pairs.len() == 1 {
        form_pair(pairs[0])
    } else {
        form_encoded(pairs.drop_last()) + seq!['&'] + form_pair(pairs.last())
    }
}

/// Relies on `serde_urlencoded::to_string` on a sequence of string pairs,
/// which appends each pair through `form_urlencoded::Serializer::append_pair`
/// (`byte_serialize` on each side): it always succeeds there, since a
/// sequence of 2-tuples of strings takes no error path.
#[verifier::external_body]
fn form_encode(pairs: &Vec<(String, String)>) -> (r: Option<String>)
    ensures
        r is Some,
        r matches Some(q) ==> q@ == form_encoded(pairs.deep_view()),
{
    serde_urlencoded::to_string(pairs).ok()
}

/// The request comes from the link-preview crawler that gets embed pages.
pub open spec fn is_embed_crawler(user_agent: Option<Seq<char>>) -> bool {
    match user_agent {
        Some(ua) => contains_seq(ua, "Discordbot"@),
        None => false,
    }
}

/// Whether a `User-Agent` header value marks the embed crawler.
pub fn wants_embed(user_agent: Option<&str>) -> (r: bool)
    ensures
        r == is_embed_crawler(
            match user_agent {
                Some(ua) => Some(ua@),
                None => None,
            },
        ),
{
    match user_agent {
        Some(ua) => text_contains(ua, "Discordbot"),
        None => false,
    }
}

/// The query parameters of the oEmbed discovery link for a card.
pub open spec fn oembed_pairs(card: CardModel) -> Seq<(Seq<char>, Seq<char>)> {
    seq![
        ("provider_name"@, card.cta),
        ("provider_url"@, card.url),
        ("author_name"@, card.title),
        ("author_url"@, card.url),
    ]
}

/// The embed page of a card: oEmbed discovery link under `base` with query
/// `query`, theme colour, script navigation and a no-script link to the url.
pub open spec fn embed_html(card: CardModel, base: Seq<char>, query: Seq<char>) -> Seq<char> {
    "<!doctype html>\n<html>\n    <head>\n        <link rel=\"alternate\" type=\"application/json+oembed\" href=\""@
        + base + "/_/oembed.json?"@ + query
        + "\"/>\n        <meta name=\"theme-color\" content=\""@ + card.color
        + "\">\n        <script>location.href = \""@ + card.url
        + "\"</script>\n    </head>\n    <body>\n        <noscript>Please navigate to <a href=\""@
        + card.url + "\">"@ + card.url + "</a></noscript>\n    </body>\n</html>\n"@
}

impl Card {
    /// The oEmbed query parameters of this card.
    pub fn oembed_query(&self) -> (r: Vec<(String, String)>)
        ensures
            r.deep_view() == oembed_pairs(self@),
    {
        let mut r: Vec<(String, String)> = Vec::new();
        r.push((String::from_str("provider_name"), self.cta.clone()));
        r.push((String::from_str("provider_url"), self.url.clone()));
        r.push((String::from_str("author_name"), self.title.clone()));
        r.push((String::from_str("author_url"), self.url.clone()));
        assert(r.deep_view() =~= oembed_pairs(self@));
        r
    }

    /// The embed page of this card, given the encoded oEmbed query.
    pub fn embed_html_with_query(&self, public_base: &str, query: &str) -> (r: String)
        ensures
            r@ == embed_html(self@, public_base@, query@),
    {
        let mut r = String::from_str(
            "<!doctype html>\n<html>\n    <head>\n        <link rel=\"alternate\" type=\"application/json+oembed\" href=\"",
        );
        r.append(public_base);
        r.append("/_/oembed.json?");
        r.append(query);
        r.append("\"/>\n        <meta name=\"theme-color\" content=\"");
        r.append(self.color.as_str());
        r.append("\">\n        <script>location.href = \"");
        r.append(self.url.as_str());
        r.append(
            "\"</script>\n    </head>\n    <body>\n        <noscript>Please navigate to <a href=\"",
        );
        r.append(self.url.as_str());
        r.append("\">");
        r.append(self.url.as_str());
        r.append("</a></noscript>\n    </body>\n</html>\n");
        r
    }

    /// The embed page of this card.
    pub fn build_embed_html(&self, public_base: &str) -> (r: String)
        ensures
            r@ == embed_html(self@, public_base@, form_encoded(oembed_pairs(self@))),
    {
        let pairs = self.oembed_query();
        match form_encode(&pairs) {
            Some(q) => self.embed_html_with_query(public_base, q.as_str()),
            None => String::new(),
        }
    }
}

/// HTTP status of a found asset or an embed page.
pub const STATUS_OK: u16 = 200;

/// HTTP status of a browser's redirect to a card's url.
pub const STATUS_PERMANENT_REDIRECT: u16 = 308;

/// HTTP status of a key that resolves to nothing.
pub const STATUS_NOT_FOUND: u16 = 404;

/// HTTP status of a failed resolution.
pub const STATUS_INTERNAL_ERROR: u16 = 500;

/// The body of a reply.
#[derive(Debug)]
pub enum ReplyBody {
    Bytes(Vec<u8>),
    Text(String),
}

/// An HTTP reply, before it meets the transport.
#[derive(Debug)]
pub struct Reply {
    pub status: u16,
    /// Value of the diagnostic cache-status header.
    pub cache_status: CacheStatus,
    pub content_type: Option<String>,
    pub location: Option<String>,
    pub body: ReplyBody,
}

pub enum BodyModel {
    Bytes(Seq<u8>),
    Text(Seq<char>),
}

pub struct ReplyModel {
    pub status: u16,
    pub cache_status: CacheStatus,
    pub content_type: Option<Seq<char>>,
    pub location: Option<Seq<char>>,
    pub body: BodyModel,
}

impl View for ReplyBody {
    type V = BodyModel;

    open spec fn view(&self) -> BodyModel {
        match self {
            ReplyBody::Bytes(b) => BodyModel::Bytes(b@),
            ReplyBody::Text(t) => BodyModel::Text(t@),
        }
    }
}

impl View for Reply {
    type V = ReplyModel;

    open spec fn view(&self) -> ReplyModel {
        ReplyModel {
            status: self.status,
            cache_status: self.cache_status,
            content_type: match self.content_type {
                Some(c) => Some(c@),
                None => None,
            },
            location: match self.location {
                Some(l) => Some(l@),
                None => None,
            },
            body: self.body@,
        }
    }
}

/// The reply to a resolved entry: 404 for nothing, the asset with its
/// content type, and for a card either the embed page (crawler) or a
/// permanent redirect to its url. The cache status travels along.
pub open spec fn reply_for(
    e: EntryModel,
    status: CacheStatus,
    embed: bool,
    base: Seq<char>,
) -> ReplyModel {
    match e {
        EntryModel::Empty => ReplyModel {
            status: STATUS_NOT_FOUND,
            cache_status: status,
            content_type: None,
            location: None,
            body: BodyModel::Text("not found"@),
        },
        EntryModel::Asset { mime, body } => ReplyModel {
            status: STATUS_OK,
            cache_status: status,
            content_type: Some(mime),
            location: None,
            body: BodyModel::Bytes(body),
        },
        EntryModel::Card { card } => if embed {
            ReplyModel {
                status: STATUS_OK,
                cache_status: status,
                content_type: Some("text/html"@),
                location: None,
                body: BodyModel::Text(embed_html(card, base, form_encoded(oembed_pairs(card)))),
            }
        } else {
            ReplyModel {
                status: STATUS_PERMANENT_REDIRECT,
                cache_status: status,
                content_type: None,
                location: Some(card.url),
                body: BodyModel::Bytes(Seq::empty()),
            }
        },
    }
}

/// Renders a resolved entry for a request with the given `User-Agent`.
pub fn render(
    entry: &CacheEntry,
    status: CacheStatus,
    user_agent: Option<&str>,
    public_base: &str,
) -> (r: Reply)
    ensures
        r@ == reply_for(
            entry@,
            status,
            is_embed_crawler(
                match user_agent {
                    Some(ua) => Some(ua@),
                    None => None,
                },
            ),
            public_base@,
        ),
{
    match entry {
        CacheEntry::Empty => Reply {
                status: STATUS_NOT_FOUND,
                cache_status: status,
                content_type: None,
                location: None,
                body: ReplyBody::Text(String::from_str("not found")),
            },
        CacheEntry::Asset(mime, body) => Reply {
                status: STATUS_OK,
                cache_status: status,
                content_type: Some(mime.clone()),
                location: None,
                body: ReplyBody::Bytes(body.clone()),
            },
        CacheEntry::Card(card) => {
            if wants_embed(user_agent) {
                Reply {
                    status: STATUS_OK,
                    cache_status: status,
                    content_type: Some(String::from_str("text/html")),
                    location: None,
                    body: ReplyBody::Text(card.build_embed_html(public_base)),
                }
            } else {
                Reply {
                    status: STATUS_PERMANENT_REDIRECT,
                    cache_status: status,
                    content_type: None,
                    location: Some(card.url.clone()),
                    body: ReplyBody::Bytes(Vec::new()),
                }
            }
        },
    }
}

/// The body of a reply depends on the entry and the request alone, never on
/// whether the entry came from the cache: a hit and a miss on the same entry
/// send the same bytes.
pub proof fn lemma_body_independent_of_cache_status(
    e: EntryModel,
    embed: bool,
    base: Seq<char>,
)
    ensures
        reply_for(e, CacheStatus::Hit, embed, base).body == reply_for(
            e,
            CacheStatus::Miss,
            embed,
            base,
        ).body,
        reply_for(e, CacheStatus::Hit, embed, base).status == reply_for(
            e,
            CacheStatus::Miss,
            embed,
            base,
        ).status,
{
}

/// HTML rendering of text carrying terminal colour escapes, with the
/// special HTML characters escaped; `None` where an escape is malformed.
pub uninterp spec fn ansi_html(s: Seq<char>) -> Option<Seq<char>>;

/// Relies on `ansi_to_html::convert` with escaping and tag merging on:
/// whether it succeeds, and the HTML it makes, depend on the text alone.
#[verifier::external_body]
fn ansi_to_html_text(s: &str) -> (r: Option<String>)
    ensures
        ansi_html(s@) == match r {
            Some(h) => Some(h@),
            None => None::<Seq<char>>,
        },
{
    ansi_to_html::convert(s, true, true).ok()
}

/// A character of the Unicode `White_Space` property.
pub open spec fn is_white_space(c: char) -> bool {
    let n = c as u32;
    (9 <= n <= 13) || n == 32 || n == 0x85 || n == 0xA0 || n == 0x1680 || (0x2000 <= n <= 0x200A)
        || n == 0x2028 || n == 0x2029 || n == 0x202F || n == 0x205F || n == 0x3000
}

/// `s` without its leading whitespace.
pub open spec fn trim_start_ws(s: Seq<char>) -> Seq<char>
    decreases s.len(),
{
    if s.len() > 0 && is_white_space(s[0]) {
        trim_start_ws(s.drop_first())
    } else {
        s
    }
}

/// `s` without its trailing whitespace.
pub open spec fn trim_end_ws(s: Seq<char>) -> Seq<char>
    decreases s.len(),
{
    if s.len() > 0 && is_white_space(s.last()) {
        trim_end_ws(s.drop_last())
    } else {
        s
    }
}

/// Text without its leading and trailing whitespace.
pub open spec fn trim_whitespace(s: Seq<char>) -> Seq<char> {
    trim_end_ws(trim_start_ws(s))
}

/// Relies on `str::trim`, which removes leading and trailing characters of
/// the Unicode `White_Space` property.
#[verifier::external_body]
fn trim_text(s: &str) -> (r: String)
    ensures
        r@ == trim_whitespace(s@),
{
    s.trim().to_string()
}

/// `s` with every line break written as an HTML `<br>`.
pub open spec fn break_lines(s: Seq<char>) -> Seq<char>
    decreases s.len(),
{
    if s.len() == 0 {
        Seq::empty()
    } else if s.last() == '\n' {
        break_lines(s.drop_last()) + "<br>"@
    } else {
        break_lines(s.drop_last()).push(s.last())
    }
}

/// Writes the line breaks of `s` as `<br>`.
pub fn html_line_breaks(s: &str) -> (r: String)
    ensures
        r@ == break_lines(s@),
{
    let n: usize = s.unicode_len();
    let mut r = String::new();
    let mut i: usize = 0;
    while i < n
        invariant
            n == s@.len(),
            i <= n,
            r@ == break_lines(s@.subrange(0, i as int)),
        decreases n - i,
    {
        let c = s.get_char(i);
        proof {
            let t = s@.subrange(0, i as int + 1);
            assert(t.drop_last() == s@.subrange(0, i as int));
            assert(t.last() == c);
        }
        if c == '\n' {
            r.append("<br>");
        } else {
            let mut one = String::new();
            one.append(s.substring_char(i, i + 1));
            proof {
                assert(s@.subrange(i as int, i as int + 1) =~= seq![c]);
            }
            r.append(one.as_str());
            assert(r@ =~= break_lines(s@.subrange(0, i as int)).push(c));
        }
        i = i + 1;
    }
    assert(s@.subrange(0, n as int) == s@);
    r
}

/// The operator-facing error page for already rendered detail `html`. A
/// resolution fails only on a cache miss, which the page reports.
pub open spec fn failure_reply(html: Seq<char>) -> ReplyModel {
    ReplyModel {
        status: STATUS_INTERNAL_ERROR,
        cache_status: CacheStatus::Miss,
        content_type: Some("text/html"@),
        location: None,
        body: BodyModel::Text(
            "<!doctype html><h1>500 Internal Server Exception</h1><code>"@ + break_lines(
                trim_whitespace(html),
            ) + "</code>"@,
        ),
    }
}

/// The error page around detail that is already HTML.
pub fn failure_page_from_html(html: &str) -> (r: Reply)
    ensures
        r@ == failure_reply(html@),
{
    let trimmed = trim_text(html);
    let lines = html_line_breaks(trimmed.as_str());
    let mut page = String::from_str("<!doctype html><h1>500 Internal Server Exception</h1><code>");
    page.append(lines.as_str());
    page.append("</code>");
    Reply {
        status: STATUS_INTERNAL_ERROR,
        cache_status: CacheStatus::Miss,
        content_type: Some(String::from_str("text/html")),
        location: None,
        body: ReplyBody::Text(page),
    }
}

/// The error page for a failure described by `detail`, which may carry
/// terminal colour escapes; where those cannot be rendered the detail is
/// used as it is.
pub fn failure_page(detail: &str) -> (r: Reply)
    ensures
        r@ == failure_reply(
            match ansi_html(detail@) {
                Some(h) => h,
                None => detail@,
            },
        ),
{
    match ansi_to_html_text(detail) {
        Some(html) => failure_page_from_html(html.as_str()),
        None => failure_page_from_html(detail),
    }
}

} // verus!
