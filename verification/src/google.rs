//! The Google web translation endpoints: which requests to try, in which
//! order, and how to read their answers.

use vstd::prelude::*;
use crate::browser::{translate_url, translate_url_of};
use crate::engine::{synonyms_view, Synonym, SynonymView, Translation, TranslationView, Query};
use crate::error::{Error, ErrorView};
use crate::json::{jarr, jget, jstr, parse_json, parsed_json, Json};
use crate::text::{concat, decimal, decimal_of, opt_string, owned, str_eq};

verus! {

/// The text of the first element of a sentence row, if it is a string.
pub open spec fn chunk_of(s: Json) -> Option<Seq<char>> {
    jstr(jget(s, 0))
}

/// The translated text: the chunks of all sentence rows, in order.
pub open spec fn primary_of(sents: Seq<Json>) -> Seq<char>
    decreases sents.len(),
{
    if sents.len() == 0 {
        Seq::empty()
    } else {
        primary_of(sents.drop_last()) + match chunk_of(sents.last()) {
            Some(c) => c,
            None => Seq::empty(),
        }
    }
}

/// A non-empty string at position `idx` of a row.
pub open spec fn translit_of(s: Json, idx: int) -> Option<Seq<char>> {
    match jstr(jget(s, idx)) {
        Some(t) => if t.len() > 0 {
            Some(t)
        } else {
            None
        },
        None => None,
    }
}

/// The first transliteration at `idx` among rows that carry no chunk.
pub open spec fn first_translit(sents: Seq<Json>, idx: int) -> Option<Seq<char>>
    decreases sents.len(),
{
    if sents.len() == 0 {
        None
    } else {
        match first_translit(sents.drop_last(), idx) {
            Some(x) => Some(x),
            None => if chunk_of(sents.last()) is None {
                translit_of(sents.last(), idx)
            } else {
                None
            },
        }
    }
}

/// The sentence rows: the array at position 0, if any.
pub open spec fn sentences_of(v: Json) -> Seq<Json> {
    match jarr(jget(v, 0)) {
        Some(a) => a,
        None => Seq::empty(),
    }
}

/// The string items of an array, in order.
pub open spec fn strings_in(items: Seq<Json>) -> Seq<Seq<char>>
    decreases items.len(),
{
    if items.len() == 0 {
        Seq::empty()
    } else {
        strings_in(items.drop_last()) + match jstr(Some(items.last())) {
            Some(s) => seq![s],
            None => Seq::empty(),
        }
    }
}

/// The back translations of a dictionary entry.
pub open spec fn back_of(e: Json) -> Seq<Seq<char>> {
    match jarr(jget(e, 1)) {
        Some(items) => strings_in(items),
        None => Seq::empty(),
    }
}

/// Synonyms from dictionary entries that start with a word.
pub open spec fn entry_synonyms(es: Seq<Json>) -> Seq<SynonymView>
    decreases es.len(),
{
    if es.len() == 0 {
        Seq::empty()
    } else {
        entry_synonyms(es.drop_last()) + match jstr(jget(es.last(), 0)) {
            Some(w) => seq![SynonymView { word: w, back: back_of(es.last()) }],
            None => Seq::empty(),
        }
    }
}

/// Synonyms from every group that has an entry list at position 2.
pub open spec fn group_synonyms(gs: Seq<Json>) -> Seq<SynonymView>
    decreases gs.len(),
{
    if gs.len() == 0 {
        Seq::empty()
    } else {
        group_synonyms(gs.drop_last()) + match jarr(jget(gs.last(), 2)) {
            Some(es) => entry_synonyms(es),
            None => Seq::empty(),
        }
    }
}

/// The dictionary at position 1.
pub open spec fn synonyms_of(v: Json) -> Seq<SynonymView> {
    match jarr(jget(v, 1)) {
        Some(gs) => group_synonyms(gs),
        None => Seq::empty(),
    }
}

/// The suggested spelling: the string at position 1 of the array at 7.
pub open spec fn correction_of(v: Json) -> Option<Seq<char>> {
    match jarr(jget(v, 7)) {
        Some(c) => if c.len() > 1 {
            jstr(Some(c[1]))
        } else {
            None
        },
        None => None,
    }
}

/// A rich (`translate_a/single`) response.
pub open spec fn parse_response_of(v: Json) -> Result<TranslationView, ErrorView> {
    let sents = sentences_of(v);
    let primary = primary_of(sents);
    if primary.len() == 0 {
        Err(ErrorView::Parse("no translation in response"@))
    } else {
        Ok(
            TranslationView {
                primary,
                detected_source: jstr(jget(v, 2)),
                synonyms: synonyms_of(v),
                correction: correction_of(v),
                source_translit: first_translit(sents, 3),
                target_translit: first_translit(sents, 2),
            },
        )
    }
}

/// A plain (`translate_a/t`) response: a string, or a pair of text and
/// detected language.
pub open spec fn parse_t_response_of(v: Json) -> Result<TranslationView, ErrorView> {
    let (primary, detected) = match jget(v, 0) {
        Some(Json::Str(t)) => (t@, None),
        Some(Json::Array(pair)) => (
            match jstr(jget(Json::Array(pair), 0)) {
                Some(s) => s,
                None => Seq::empty(),
            },
            jstr(jget(Json::Array(pair), 1)),
        ),
        _ => (Seq::empty(), None),
    };
    if primary.len() == 0 {
        Err(ErrorView::Parse("no translation in response"@))
    } else {
        Ok(
            TranslationView {
                primary,
                detected_source: detected,
                synonyms: Seq::empty(),
                correction: None,
                source_translit: None,
                target_translit: None,
            },
        )
    }
}

/// The view of a translation result.
pub open spec fn translation_result(r: Result<Translation, Error>) -> Result<
    TranslationView,
    ErrorView,
> {
    match r {
        Ok(t) => Ok(t@),
        Err(e) => Err(e@),
    }
}

fn opt_owned(o: Option<&str>) -> (r: Option<String>)
    ensures
        opt_string(r) == match o {
            Some(s) => Some(s@),
            None => None::<Seq<char>>,
        },
{
    match o {
        Some(s) => Some(owned(s)),
        None => None,
    }
}

fn strings_of(items: &Vec<Json>) -> (r: Vec<String>)
    ensures
        crate::engine::strings_view(r@) == strings_in(items@),
{
    let mut out: Vec<String> = Vec::new();
    let n = items.len();
    let mut i: usize = 0;
    assert(crate::engine::strings_view(out@) =~= Seq::<Seq<char>>::empty());
    while i < n
        invariant
            n == items@.len(),
            i <= n,
            crate::engine::strings_view(out@) == strings_in(items@.take(i as int)),
        decreases n - i,
    {
        assert(items@.take(i + 1).drop_last() =~= items@.take(i as int));
        let ghost before = crate::engine::strings_view(out@);
        if let Some(s) = items[i].as_str() {
            out.push(owned(s));
            assert(crate::engine::strings_view(out@) =~= before + seq![s@]);
        } else {
            assert(before + Seq::<Seq<char>>::empty() =~= before);
        }
        i = i + 1;
    }
    assert(items@.take(n as int) =~= items@);
    out
}

fn entry_synonyms_exec(es: &Vec<Json>, out: &mut Vec<Synonym>)
    ensures
        synonyms_view(final(out)@) == synonyms_view(old(out)@) + entry_synonyms(es@),
{
    let ghost start = synonyms_view(out@);
    let n = es.len();
    let mut i: usize = 0;
    assert(start + entry_synonyms(es@.take(0)) =~= start);
    while i < n
        invariant
            n == es@.len(),
            i <= n,
            synonyms_view(out@) == start + entry_synonyms(es@.take(i as int)),
        decreases n - i,
    {
        assert(es@.take(i + 1).drop_last() =~= es@.take(i as int));
        let e = &es[i];
        let ghost before = synonyms_view(out@);
        match e.get(0) {
            Some(w) => match w.as_str() {
                Some(word) => {
                    let back = match e.get(1) {
                        Some(b) => match b.as_array() {
                            Some(items) => strings_of(items),
                            None => Vec::new(),
                        },
                        None => Vec::new(),
                    };
                    assert(crate::engine::strings_view(back@) =~= back_of(*e));
                    out.push(Synonym { word: owned(word), back });
                    assert(synonyms_view(out@) =~= before + seq![
                        SynonymView { word: word@, back: back_of(*e) },
                    ]);
                },
                None => {},
            },
            None => {},
        }
        i = i + 1;
    }
    assert(es@.take(n as int) =~= es@);
}

fn synonyms_exec(v: &Json) -> (r: Vec<Synonym>)
    ensures
        synonyms_view(r@) == synonyms_of(*v),
{
    let mut out: Vec<Synonym> = Vec::new();
    assert(synonyms_view(out@) =~= Seq::<SynonymView>::empty());
    let groups = match v.get(1) {
        Some(g) => match g.as_array() {
            Some(a) => a,
            None => return out,
        },
        None => return out,
    };
    let n = groups.len();
    let mut i: usize = 0;
    while i < n
        invariant
            n == groups@.len(),
            jarr(jget(*v, 1)) == Some(groups@),
            i <= n,
            synonyms_view(out@) == group_synonyms(groups@.take(i as int)),
        decreases n - i,
    {
        assert(groups@.take(i + 1).drop_last() =~= groups@.take(i as int));
        let ghost before = synonyms_view(out@);
        match groups[i].get(2) {
            Some(x) => match x.as_array() {
                Some(es) => {
                    entry_synonyms_exec(es, &mut out);
                },
                None => {
                    assert(before + Seq::<SynonymView>::empty() =~= before);
                },
            },
            None => {
                assert(before + Seq::<SynonymView>::empty() =~= before);
            },
        }
        i = i + 1;
    }
    assert(groups@.take(n as int) =~= groups@);
    out
}

fn translit(s: &Json, idx: usize) -> (r: Option<String>)
    ensures
        opt_string(r) == translit_of(*s, idx as int),
{
    match s.get(idx) {
        Some(x) => match x.as_str() {
            Some(t) => if t.unicode_len() > 0 {
                Some(owned(t))
            } else {
                None
            },
            None => None,
        },
        None => None,
    }
}

/// Reads a rich (`translate_a/single`) response.
pub fn parse_response_value(value: &Json) -> (r: Result<Translation, Error>)
    ensures
        translation_result(r) == parse_response_of(*value),
{
    let mut primary = String::new();
    let mut source_translit: Option<String> = None;
    let mut target_translit: Option<String> = None;
    let empty: Vec<Json> = Vec::new();
    let sentences: &Vec<Json> = match value.get(0) {
        Some(x) => match x.as_array() {
            Some(a) => a,
            None => &empty,
        },
        None => &empty,
    };
    assert(sentences@ == sentences_of(*value));
    let n = sentences.len();
    let mut i: usize = 0;
    while i < n
        invariant
            n == sentences@.len(),
            sentences@ == sentences_of(*value),
            i <= n,
            primary@ == primary_of(sentences@.take(i as int)),
            opt_string(target_translit) == first_translit(sentences@.take(i as int), 2),
            opt_string(source_translit) == first_translit(sentences@.take(i as int), 3),
        decreases n - i,
    {
        assert(sentences@.take(i + 1).drop_last() =~= sentences@.take(i as int));
        let s = &sentences[i];
        let chunk = match s.get(0) {
            Some(c) => c.as_str(),
            None => None,
        };
        match chunk {
            Some(c) => {
                primary.append(c);
            },
            None => {
                assert(primary@ + Seq::<char>::empty() =~= primary@);
                if target_translit.is_none() {
                    target_translit = translit(s, 2);
                }
                if source_translit.is_none() {
                    source_translit = translit(s, 3);
                }
            },
        }
        i = i + 1;
    }
    assert(sentences@.take(n as int) =~= sentences@);
    if primary.unicode_len() == 0 {
        return Err(Error::Parse(owned("no translation in response")));
    }
    let detected_source = match value.get(2) {
        Some(d) => opt_owned(d.as_str()),
        None => None,
    };
    let correction = match value.get(7) {
        Some(c) => match c.as_array() {
            Some(a) => if a.len() > 1 {
                opt_owned(a[1].as_str())
            } else {
                None
            },
            None => None,
        },
        None => None,
    };
    let synonyms = synonyms_exec(value);
    Ok(Translation { primary, detected_source, synonyms, correction, source_translit, target_translit })
}

/// Reads a plain (`translate_a/t`) response.
pub fn parse_t_response_value(value: &Json) -> (r: Result<Translation, Error>)
    ensures
        translation_result(r) == parse_t_response_of(*value),
{
    let (primary, detected_source): (String, Option<String>) = match value.get(0) {
        Some(Json::Str(text)) => (text.clone(), None),
        Some(Json::Array(pair)) => {
            let p = if pair.len() > 0 {
                match pair[0].as_str() {
                    Some(s) => owned(s),
                    None => String::new(),
                }
            } else {
                String::new()
            };
            let d = if pair.len() > 1 {
                opt_owned(pair[1].as_str())
            } else {
                None
            };
            (p, d)
        },
        _ => (String::new(), None),
    };
    if primary.unicode_len() == 0 {
        return Err(Error::Parse(owned("no translation in response")));
    }
    let mut t = Translation::default();
    t.primary = primary;
    t.detected_source = detected_source;
    Ok(t)
}

/// The error for an HTTP status that is not a success.
pub open spec fn status_error_of(code: u16) -> ErrorView {
    if code == 429 {
        ErrorView::Network("HTTP 429 rate limited"@)
    } else {
        ErrorView::Network("HTTP "@ + decimal_of(code as nat))
    }
}

pub fn status_error(code: u16) -> (e: Error)
    ensures
        e@ == status_error_of(code),
{
    if code == 429 {
        Error::Network(owned("HTTP 429 rate limited"))
    } else {
        Error::Network(concat("HTTP ", decimal(code as u64).as_str()))
    }
}

/// A network failure, with the browser link appended so the user can
/// still get a translation.
pub open spec fn with_browser_link_of(e: ErrorView, sl: Seq<char>, tl: Seq<char>, text: Seq<char>) -> ErrorView {
    match e {
        ErrorView::Network(why) => ErrorView::Network(
            why + "; open in a browser: "@ + translate_url_of(sl, tl, text),
        ),
        other => other,
    }
}

pub fn with_browser_link(e: Error, q: &Query) -> (r: Error)
    ensures
        r@ == with_browser_link_of(e@, q.sl@, q.tl@, q.text@),
{
    match e {
        Error::Network(why) => {
            let mut m = why;
            m.append("; open in a browser: ");
            m.append(translate_url(q.sl, q.tl, q.text).as_str());
            Error::Network(m)
        },
        other => other,
    }
}

pub const USER_AGENT: &'static str =
    "Mozilla/5.0 (Windows NT 10.0; Win64; x64) AppleWebKit/537.36 (KHTML, like Gecko) Chrome/122.0.0.0 Safari/537.36";
pub const GOOGLEAPIS: &'static str = "https://translate.googleapis.com";
pub const CLIENTS5: &'static str = "https://clients5.google.com";
pub const GOOGLE_COM: &'static str = "https://translate.google.com";

/// Which endpoint a lane calls, and so how its answer is read.
#[derive(Debug, Clone, Copy, PartialEq, Eq, Structural)]
pub enum Endpoint {
    /// `translate_a/single`, with dictionary sections.
    Single,
    /// `translate_a/t`, the translation only.
    T,
}

/// One way of asking: a host, a client name and an endpoint.
#[derive(Debug, Clone, Copy)]
pub struct Lane {
    pub name: &'static str,
    pub host: &'static str,
    pub client: &'static str,
    pub endpoint: Endpoint,
}

/// A lane as the specifications see it.
pub struct LaneView {
    pub name: Seq<char>,
    pub host: Seq<char>,
    pub client: Seq<char>,
    pub endpoint: Endpoint,
}

impl View for Lane {
    type V = LaneView;

    open spec fn view(&self) -> LaneView {
        LaneView { name: self.name@, host: self.host@, client: self.client@, endpoint: self.endpoint }
    }
}

/// The views of a list of lanes.
pub open spec fn lanes_view(v: Seq<Lane>) -> Seq<LaneView> {
    v.map_values(|l: Lane| l@)
}

/// The lanes in the order they are tried: rich endpoints first.
pub open spec fn lane_table() -> Seq<LaneView> {
    seq![
        LaneView { name: "googleapis/dict-chrome-ex"@, host: GOOGLEAPIS@, client: "dict-chrome-ex"@, endpoint: Endpoint::Single },
        LaneView { name: "googleapis/at"@, host: GOOGLEAPIS@, client: "at"@, endpoint: Endpoint::Single },
        LaneView { name: "clients5/dict-chrome-ex"@, host: CLIENTS5@, client: "dict-chrome-ex"@, endpoint: Endpoint::Single },
        LaneView { name: "clients5/at"@, host: CLIENTS5@, client: "at"@, endpoint: Endpoint::Single },
        LaneView { name: "google.com/dict-chrome-ex"@, host: GOOGLE_COM@, client: "dict-chrome-ex"@, endpoint: Endpoint::Single },
        LaneView { name: "google.com/at"@, host: GOOGLE_COM@, client: "at"@, endpoint: Endpoint::Single },
        LaneView { name: "googleapis/t/dict-chrome-ex"@, host: GOOGLEAPIS@, client: "dict-chrome-ex"@, endpoint: Endpoint::T },
        LaneView { name: "googleapis/t/at"@, host: GOOGLEAPIS@, client: "at"@, endpoint: Endpoint::T },
    ]
}

/// Every lane, in the order they are tried.
pub fn lanes() -> (r: Vec<Lane>)
    ensures
        lanes_view(r@) == lane_table(),
{
    let mut v: Vec<Lane> = Vec::new();
    v.push(Lane { name: "googleapis/dict-chrome-ex", host: GOOGLEAPIS, client: "dict-chrome-ex", endpoint: Endpoint::Single });
    v.push(Lane { name: "googleapis/at", host: GOOGLEAPIS, client: "at", endpoint: Endpoint::Single });
    v.push(Lane { name: "clients5/dict-chrome-ex", host: CLIENTS5, client: "dict-chrome-ex", endpoint: Endpoint::Single });
    v.push(Lane { name: "clients5/at", host: CLIENTS5, client: "at", endpoint: Endpoint::Single });
    v.push(Lane { name: "google.com/dict-chrome-ex", host: GOOGLE_COM, client: "dict-chrome-ex", endpoint: Endpoint::Single });
    v.push(Lane { name: "google.com/at", host: GOOGLE_COM, client: "at", endpoint: Endpoint::Single });
    v.push(Lane { name: "googleapis/t/dict-chrome-ex", host: GOOGLEAPIS, client: "dict-chrome-ex", endpoint: Endpoint::T });
    v.push(Lane { name: "googleapis/t/at", host: GOOGLEAPIS, client: "at", endpoint: Endpoint::T });
    assert(lanes_view(v@) =~= lane_table());
    v
}

/// The first lane with a name.
pub open spec fn lane_of(table: Seq<LaneView>, name: Seq<char>) -> Option<LaneView>
    decreases table.len(),
{
    if table.len() == 0 {
        None
    } else if table[0].name == name {
        Some(table[0])
    } else {
        lane_of(table.drop_first(), name)
    }
}

/// The lane with a given name.
pub fn lane(name: &str) -> (r: Option<Lane>)
    ensures
        match r {
            Some(l) => lane_of(lane_table(), name@) == Some(l@),
            None => lane_of(lane_table(), name@) is None,
        },
{
    let all = lanes();
    let n = all.len();
    let mut i: usize = 0;
    assert(lane_table().skip(0) =~= lane_table());
    while i < n
        invariant
            n == all@.len(),
            lanes_view(all@) == lane_table(),
            i <= n,
            lane_of(lane_table(), name@) == lane_of(lane_table().skip(i as int), name@),
        decreases n - i,
    {
        let l = all[i];
        assert(lane_table().skip(i as int)[0] == l@);
        assert(lane_table().skip(i as int).drop_first() =~= lane_table().skip(i + 1));
        if str_eq(l.name, name) {
            return Some(l);
        }
        i = i + 1;
    }
    None
}

/// An HTTP GET to make: the URL without its query, the query pairs in
/// order, and the headers.
pub struct RequestPlan {
    pub url: String,
    pub query: Vec<(String, String)>,
    pub headers: Vec<(String, String)>,
}

/// The views of a list of owned string pairs.
pub open spec fn string_pairs(v: Seq<(String, String)>) -> Seq<(Seq<char>, Seq<char>)> {
    v.map_values(|p: (String, String)| (p.0@, p.1@))
}

/// The path of an endpoint.
pub open spec fn path_of(e: Endpoint) -> Seq<char> {
    match e {
        Endpoint::Single => "/translate_a/single"@,
        Endpoint::T => "/translate_a/t"@,
    }
}

/// The query of a request: client and languages, the dictionary sections
/// for the rich endpoint, then the text.
pub open spec fn query_of(l: LaneView, sl: Seq<char>, tl: Seq<char>, text: Seq<char>) -> Seq<
    (Seq<char>, Seq<char>),
> {
    seq![("client"@, l.client), ("sl"@, sl), ("tl"@, tl)] + (match l.endpoint {
        Endpoint::Single => seq![
            ("dt"@, "t"@),
            ("dt"@, "bd"@),
            ("dt"@, "at"@),
            ("dt"@, "rm"@),
            ("dt"@, "qc"@),
        ],
        Endpoint::T => Seq::empty(),
    }) + seq![("q"@, text)]
}

/// The headers that make a request look like it comes from a browser.
pub open spec fn headers_of() -> Seq<(Seq<char>, Seq<char>)> {
    seq![
        ("User-Agent"@, USER_AGENT@),
        ("Accept"@, "*/*"@),
        ("Accept-Language"@, "en-US,en;q=0.9"@),
        ("Referer"@, "https://translate.google.com/"@),
    ]
}

fn pair(a: &str, b: &str) -> (r: (String, String))
    ensures
        r.0@ == a@,
        r.1@ == b@,
{
    (owned(a), owned(b))
}

/// The request a lane makes for a query.
pub fn plan(l: &Lane, q: &Query) -> (r: RequestPlan)
    ensures
        r.url@ == l.host@ + path_of(l.endpoint),
        string_pairs(r.query@) == query_of(l@, q.sl@, q.tl@, q.text@),
        string_pairs(r.headers@) == headers_of(),
{
    let url = match l.endpoint {
        Endpoint::Single => concat(l.host, "/translate_a/single"),
        Endpoint::T => concat(l.host, "/translate_a/t"),
    };
    let mut query: Vec<(String, String)> = Vec::new();
    query.push(pair("client", l.client));
    query.push(pair("sl", q.sl));
    query.push(pair("tl", q.tl));
    match l.endpoint {
        Endpoint::Single => {
            query.push(pair("dt", "t"));
            query.push(pair("dt", "bd"));
            query.push(pair("dt", "at"));
            query.push(pair("dt", "rm"));
            query.push(pair("dt", "qc"));
        },
        Endpoint::T => {},
    }
    query.push(pair("q", q.text));
    assert(string_pairs(query@) =~= query_of(l@, q.sl@, q.tl@, q.text@));
    let mut headers: Vec<(String, String)> = Vec::new();
    headers.push(pair("User-Agent", USER_AGENT));
    headers.push(pair("Accept", "*/*"));
    headers.push(pair("Accept-Language", "en-US,en;q=0.9"));
    headers.push(pair("Referer", "https://translate.google.com/"));
    assert(string_pairs(headers@) =~= headers_of());
    RequestPlan { url, query, headers }
}

/// Reads a response the way a lane's endpoint answers.
pub fn parse_body_value(endpoint: Endpoint, value: &Json) -> (r: Result<Translation, Error>)
    ensures
        translation_result(r) == match endpoint {
            Endpoint::Single => parse_response_of(*value),
            Endpoint::T => parse_t_response_of(*value),
        },
{
    match endpoint {
        Endpoint::Single => parse_response_value(value),
        Endpoint::T => parse_t_response_value(value),
    }
}

/// A body that is not JSON gives the parser's message as a response error;
/// JSON is read as `read` says.
pub open spec fn body_result(
    body: Seq<char>,
    read: spec_fn(Json) -> Result<TranslationView, ErrorView>,
) -> Result<TranslationView, ErrorView> {
    match parsed_json(body) {
        Err(m) => Err(ErrorView::Parse(m)),
        Ok(v) => read(v),
    }
}

/// Reads a rich (`translate_a/single`) response body.
pub fn parse_response(body: &str) -> (r: Result<Translation, Error>)
    ensures
        translation_result(r) == body_result(body@, |v: Json| parse_response_of(v)),
{
    match parse_json(body) {
        Err(m) => Err(Error::Parse(m)),
        Ok(v) => parse_response_value(&v),
    }
}

/// Reads a plain (`translate_a/t`) response body.
pub fn parse_t_response(body: &str) -> (r: Result<Translation, Error>)
    ensures
        translation_result(r) == body_result(body@, |v: Json| parse_t_response_of(v)),
{
    match parse_json(body) {
        Err(m) => Err(Error::Parse(m)),
        Ok(v) => parse_t_response_value(&v),
    }
}

/// Reads a response body the way a lane's endpoint answers.
pub fn parse_body(endpoint: Endpoint, body: &str) -> (r: Result<Translation, Error>)
    ensures
        translation_result(r) == match endpoint {
            Endpoint::Single => body_result(body@, |v: Json| parse_response_of(v)),
            Endpoint::T => body_result(body@, |v: Json| parse_t_response_of(v)),
        },
{
    match endpoint {
        Endpoint::Single => parse_response(body),
        Endpoint::T => parse_t_response(body),
    }
}

} // verus!
