//! Building typed REST requests: merged headers, request URL with optional
//! query string, the mutually exclusive JSON/form body, and normalization of
//! a response body before decoding.
//!
//! The transport itself (sending a prepared request and reading the response
//! text) lives outside the library; everything here is the computation on
//! both sides of that call.

use vstd::prelude::*;

use crate::errors::Error;

verus! {

/// The HTTP methods the reconciler issues.
#[derive(Clone, Copy, PartialEq, Eq, Structural)]
pub enum Method {
    Get,
    Post,
}

/// Header or query pairs, order-significant: on a repeated key the later
/// pair wins.
pub type Pairs = Seq<(Seq<char>, Seq<char>)>;

/// The value of the last pair carrying key `k`, if any.
pub open spec fn pair_value(ps: Pairs, k: Seq<char>) -> Option<Seq<char>>
    decreases ps.len(),
{
    if ps.len() == 0 {
        None
    } else if ps.last().0 == k {
        Some(ps.last().1)
    } else {
        pair_value(ps.drop_last(), k)
    }
}

/// The fixed default header set of every client.
pub open spec fn default_header_model() -> Pairs {
    seq![("Accept"@, "application/json"@), ("Content-Type"@, "application/json"@)]
}

/// On a concatenation the right-hand pairs win: looking a key up in
/// `base + overrides` gives the override's value wherever the key occurs in
/// `overrides`, and the base value otherwise.
pub proof fn lemma_pair_value_concat(base: Pairs, overrides: Pairs, k: Seq<char>)
    ensures
        pair_value(base + overrides, k) == if pair_value(overrides, k) is Some {
            pair_value(overrides, k)
        } else {
            pair_value(base, k)
        },
    decreases overrides.len(),
{
    if overrides.len() == 0 {
        assert(base + overrides =~= base);
    } else {
        assert((base + overrides).drop_last() =~= base + overrides.drop_last());
        lemma_pair_value_concat(base, overrides.drop_last(), k);
    }
}

fn clone_pairs(ps: &Vec<(String, String)>) -> (r: Vec<(String, String)>)
    ensures
        r@ =~= ps@,
        r.deep_view() =~= ps.deep_view(),
{
    let mut r: Vec<(String, String)> = Vec::new();
    let mut i: usize = 0;
    while i < ps.len()
        invariant
            i <= ps.len(),
            r@ =~= ps@.take(i as int),
        decreases ps.len() - i,
    {
        let (k, v) = (&ps[i].0, &ps[i].1);
        r.push((k.clone(), v.clone()));
        proof {
            assert(r@ =~= ps@.take(i as int).push(ps@[i as int]));
            assert(ps@.take(i as int).push(ps@[i as int]) =~= ps@.take(i + 1 as int));
        }
        i = i + 1;
    }
    proof {
        assert(ps@.take(ps@.len() as int) =~= ps@);
        assert forall|i: int| 0 <= i < ps@.len() implies r.deep_view()[i] == ps.deep_view()[i] by {
            assert(r@[i] == ps@[i]);
        }
    }
    r
}

/// The default header set.
pub fn default_headers() -> (r: Vec<(String, String)>)
    ensures
        r.deep_view() =~= default_header_model(),
{
    let mut r: Vec<(String, String)> = Vec::new();
    r.push((String::from_str("Accept"), String::from_str("application/json")));
    r.push((String::from_str("Content-Type"), String::from_str("application/json")));
    r
}

/// Merges the default header set with per-client overrides; the result keeps
/// the defaults first, so the override wins on a key collision (see
/// [`lemma_pair_value_concat`]).
pub fn merge_headers(overrides: &Vec<(String, String)>) -> (r: Vec<(String, String)>)
    ensures
        r.deep_view() =~= default_header_model() + overrides.deep_view(),
{
    let mut r = default_headers();
    let mut extra = clone_pairs(overrides);
    let ghost defaults_part = r.deep_view();
    let mut i: usize = 0;
    while i < extra.len()
        invariant
            i <= extra.len(),
            extra@.len() == overrides@.len(),
            extra.deep_view() =~= overrides.deep_view(),
            r.deep_view() =~= defaults_part + overrides.deep_view().take(i as int),
            defaults_part =~= default_header_model(),
        decreases extra.len() - i,
    {
        let (k, v) = (&extra[i].0, &extra[i].1);
        r.push((k.clone(), v.clone()));
        proof {
            assert(extra.deep_view()[i as int] == overrides.deep_view()[i as int]);
            assert(r.deep_view() =~= (defaults_part + overrides.deep_view().take(i as int)).push(
                overrides.deep_view()[i as int],
            ));
            assert((defaults_part + overrides.deep_view().take(i as int)).push(
                overrides.deep_view()[i as int],
            ) =~= defaults_part + overrides.deep_view().take(i + 1 as int));
        }
        i = i + 1;
    }
    proof {
        assert(overrides.deep_view().take(overrides.deep_view().len() as int) =~= overrides.deep_view());
    }
    r
}

/// The application/x-www-form-urlencoded serialization of a character
/// sequence, as the outside serializer computes it.
pub uninterp spec fn urlencode_of(s: Seq<char>) -> Seq<char>;

/// Relies on `form_urlencoded::byte_serialize`: the
/// application/x-www-form-urlencoded byte serialization of the UTF-8 bytes
/// of `s`, a function of `s` alone; nothing in gives nothing out.
#[verifier::external_body]
fn urlencode(s: &str) -> (r: String)
    ensures
        r@ == urlencode_of(s@),
        s@.len() == 0 ==> r@.len() == 0,
{
    form_urlencoded::byte_serialize(s.as_bytes()).collect()
}

/// One encoded `key=value` unit.
pub open spec fn encoded_pair_model(p: (Seq<char>, Seq<char>)) -> Seq<char> {
    urlencode_of(p.0) + "="@ + urlencode_of(p.1)
}

/// The encoded pairs joined by `&`; empty for no pairs.
pub open spec fn query_model(ps: Pairs) -> Seq<char>
    decreases ps.len(),
{
    if ps.len() == 0 {
        Seq::empty()
    } else if ps.len() == 1 {
        encoded_pair_model(ps[0])
    } else {
        query_model(ps.drop_last()) + "&"@ + encoded_pair_model(ps.last())
    }
}

fn encode_pair(k: &String, v: &String) -> (r: String)
    ensures
        r@ == encoded_pair_model((k@, v@)),
{
    let enc_k = urlencode(k.as_str());
    let enc_v = urlencode(v.as_str());
    enc_k.concat("=").concat(enc_v.as_str())
}

/// Form-encodes the pairs: `k=v` units joined by `&`. This serves both as a
/// query string and as a form request body.
pub fn encode_form(ps: &Vec<(String, String)>) -> (r: String)
    ensures
        r@ == query_model(ps.deep_view()),
{
    let mut r = String::new();
    let mut i: usize = 0;
    while i < ps.len()
        invariant
            i <= ps.len(),
            r@ == query_model(ps.deep_view().take(i as int)),
        decreases ps.len() - i,
    {
        let piece = encode_pair(&ps[i].0, &ps[i].1);
        if i > 0 {
            r.append("&");
        }
        r.append(piece.as_str());
        proof {
            let ghost pre = ps.deep_view().take(i as int);
            let ghost cur = ps.deep_view().take(i + 1 as int);
            assert(ps.deep_view()[i as int] == (ps@[i as int].0@, ps@[i as int].1@));
            assert(cur.drop_last() =~= pre);
            assert(cur.last() == ps.deep_view()[i as int]);
            if i == 0 {
                assert(Seq::<char>::empty() + encoded_pair_model(cur[0]) =~= encoded_pair_model(
                    cur[0],
                ));
            }
        }
        i = i + 1;
    }
    proof {
        assert(ps.deep_view().take(ps.deep_view().len() as int) =~= ps.deep_view());
    }
    r
}

/// The request URL: base and path concatenated, with `?` and the encoded
/// query appended only when at least one parameter is present. A request
/// without query parameters gets exactly `base + path` - no trailing `?`.
pub open spec fn url_model(base: Seq<char>, path: Seq<char>, params: Pairs) -> Seq<char> {
    if params.len() == 0 {
        base + path
    } else {
        base + path + "?"@ + query_model(params)
    }
}

/// Builds the request URL from the fixed base, the endpoint path, and the
/// query parameters, if any.
pub fn build_url(base: &str, path: &str, params: &Vec<(String, String)>) -> (r: String)
    ensures
        r@ == url_model(base@, path@, params.deep_view()),
{
    let mut r = base.to_owned();
    r.append(path);
    if params.len() > 0 {
        r.append("?");
        let q = encode_form(params);
        r.append(q.as_str());
    }
    r
}

/// The request body: a form map, a JSON map, or nothing. Exactly one of the
/// two encodings is sent; with no body at all, the empty JSON object is.
pub enum RequestBody {
    Json(Vec<(String, String)>),
    Form(Vec<(String, String)>),
    Empty,
}

/// The serialized JSON object whose members are the given string pairs, as
/// the outside serializer renders it.
pub uninterp spec fn json_object_of(pairs: Pairs) -> Seq<char>;

/// Relies on `serde_json::to_string` on a `Value::Object` built from the
/// pairs (later pair wins on a repeated key): a function of the pairs alone,
/// and `{}` for no pairs. Serializing a string-keyed `Value` cannot fail.
#[verifier::external_body]
fn json_encode_pairs(pairs: &Vec<(String, String)>) -> (r: String)
    ensures
        r@ == json_object_of(pairs.deep_view()),
        pairs@.len() == 0 ==> r@ == "{}"@,
{
    let mut map = serde_json::Map::new();
    for (k, v) in pairs.iter() {
        map.insert(k.clone(), serde_json::Value::String(v.clone()));
    }
    serde_json::to_string(&serde_json::Value::Object(map)).expect("string map serializes")
}

/// The body text that a request carries.
pub open spec fn body_text_model(b: RequestBody) -> Seq<char> {
    match b {
        RequestBody::Form(ps) => query_model(ps.deep_view()),
        RequestBody::Json(ps) => json_object_of(ps.deep_view()),
        RequestBody::Empty => json_object_of(Seq::empty()),
    }
}

/// The Content-Type that goes with the body.
pub open spec fn body_content_type_model(b: RequestBody) -> Seq<char> {
    match b {
        RequestBody::Form(_) => "application/x-www-form-urlencoded"@,
        RequestBody::Json(_) => "application/json"@,
        RequestBody::Empty => "application/json"@,
    }
}

/// Encodes the body choice as `(content type, body text)`. A form body is
/// form-encoded; a JSON body, or no body at all, becomes a JSON object -
/// never both.
pub fn encode_body(b: &RequestBody) -> (r: (String, String))
    ensures
        r.0@ == body_content_type_model(*b),
        r.1@ == body_text_model(*b),
        *b is Empty ==> r.1@ == "{}"@,
{
    match b {
        RequestBody::Form(ps) => (
            String::from_str("application/x-www-form-urlencoded"),
            encode_form(ps),
        ),
        RequestBody::Json(ps) => (String::from_str("application/json"), json_encode_pairs(ps)),
        RequestBody::Empty => {
            let none: Vec<(String, String)> = Vec::new();
            let body = json_encode_pairs(&none);
            proof {
                assert(none.deep_view() =~= Seq::<(Seq<char>, Seq<char>)>::empty());
            }
            (String::from_str("application/json"), body)
        },
    }
}

/// A fully determined request, ready for a transport to send.
pub struct PreparedRequest {
    pub method: Method,
    pub url: String,
    pub headers: Vec<(String, String)>,
    pub content_type: String,
    pub body: String,
}

/// A typed REST client: a fixed base URL and the merged header set that
/// every request of this client carries.
pub struct HttpClient {
    pub base_url: String,
    pub headers: Vec<(String, String)>,
}

impl HttpClient {
    /// A client for `base_url` whose headers are the defaults merged with
    /// the given overrides; the override wins on a key collision.
    pub fn new(base_url: &str, headers: Option<Vec<(String, String)>>) -> (c: HttpClient)
        ensures
            c.base_url@ == base_url@,
            c.headers.deep_view() =~= match headers {
                Some(h) => default_header_model() + h.deep_view(),
                None => default_header_model(),
            },
    {
        let merged = match &headers {
            Some(h) => merge_headers(h),
            None => {
                let h = default_headers();
                proof {
                    assert(default_header_model() + Seq::<(Seq<char>, Seq<char>)>::empty()
                        =~= default_header_model());
                }
                h
            },
        };
        HttpClient { base_url: base_url.to_owned(), headers: merged }
    }

    /// Assembles the request this client would issue: URL from base, path
    /// and query; this client's headers; the encoded body.
    pub fn prepare(&self, method: Method, path: &str, params: &Vec<(String, String)>, body: &RequestBody) -> (r:
        PreparedRequest)
        ensures
            r.method == method,
            r.url@ == url_model(self.base_url@, path@, params.deep_view()),
            r.headers.deep_view() =~= self.headers.deep_view(),
            r.content_type@ == body_content_type_model(*body),
            r.body@ == body_text_model(*body),
            *body is Empty ==> r.body@ == "{}"@,
    {
        let url = build_url(self.base_url.as_str(), path, params);
        let (content_type, body_text) = encode_body(body);
        PreparedRequest {
            method,
            url,
            headers: clone_pairs(&self.headers),
            content_type,
            body: body_text,
        }
    }
}

/// The response text once the empty-body substitution is applied: an empty
/// body reads as the empty JSON object.
pub open spec fn normalized_text_model(text: Seq<char>) -> Seq<char> {
    if text.len() == 0 {
        "{}"@
    } else {
        text
    }
}

/// Substitutes the empty-object text for an empty response body, so that an
/// endpoint answering with no body still decodes into a "no content" type.
pub fn normalize_response_text(text: String) -> (r: String)
    ensures
        r@ == normalized_text_model(text@),
{
    if text.as_str().is_empty() {
        String::from_str("{}")
    } else {
        text
    }
}

/// Whether a text parses as a JSON object, as the outside parser decides it.
pub uninterp spec fn is_json_object(s: Seq<char>) -> bool;

/// Relies on `serde_json::from_str::<Value>`: whether `s` is a valid JSON
/// text whose top level is an object, a function of `s` alone; `{}` is one.
#[verifier::external_body]
fn json_text_is_object(s: &str) -> (r: bool)
    ensures
        r == is_json_object(s@),
        s@ == "{}"@ ==> r,
{
    match serde_json::from_str::<serde_json::Value>(s) {
        Ok(serde_json::Value::Object(_)) => true,
        _ => false,
    }
}

/// Decodes a response text into "no content": accepts any JSON object and
/// nothing else. An empty body, once normalized, always decodes.
pub fn decode_empty_object(text: &str) -> (r: Result<(), Error>)
    ensures
        r is Ok <==> is_json_object(normalized_text_model(text@)),
        text@.len() == 0 ==> r is Ok,
        r matches Err(e) ==> e is DecodeError,
{
    let normalized = normalize_response_text(text.to_owned());
    if json_text_is_object(normalized.as_str()) {
        Ok(())
    } else {
        Err(Error::DecodeError(String::from_str("response body is not a JSON object")))
    }
}

} // verus!
