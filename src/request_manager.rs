use vstd::prelude::*;

use crate::authentication::Authentication;
use crate::constants::{API_URL, API_VERSION, USER_AGENT};
use crate::errors::Error;

verus! {

/// The serialization of the URL that url::Url::parse reads from a text, or
/// nothing where the text is not a URL.
pub uninterp spec fn parsed_url_of(text: Seq<char>) -> Option<Seq<char>>;

/// The serialization of a URL after url's `append_pair` added one query pair
/// to the URL that url::Url::parse reads from `url`; nothing where `url` is
/// not a URL.
pub uninterp spec fn url_with_pair_of(url: Seq<char>, key: Seq<char>, value: Seq<char>) -> Option<Seq<char>>;

/// The `application/x-www-form-urlencoded` body that serde_urlencoded writes
/// for a single pair.
pub uninterp spec fn form_pair_of(key: Seq<char>, value: Seq<char>) -> Seq<char>;

/// A character that http's `HeaderValue` accepts: a tab, or anything from
/// the space on but DEL (the bytes of a multi-byte character are all at
/// least 0x80).
pub open spec fn http_header_char(c: char) -> bool {
    c == '\t' || (' ' <= c && c != '\x7f')
}

/// A text that http's `HeaderValue` accepts.
pub open spec fn http_header_text(s: Seq<char>) -> bool {
    forall|i: int| 0 <= i < s.len() ==> http_header_char(#[trigger] s[i])
}

/// A character that a header value of this protocol may hold: a tab, a
/// space or a visible ASCII character. Control and non-ASCII characters
/// are refused.
pub open spec fn valid_header_char(c: char) -> bool {
    c == '\t' || (' ' <= c && c <= '~')
}

/// A text that a header value of this protocol may hold.
pub open spec fn valid_header_text(s: Seq<char>) -> bool {
    forall|i: int| 0 <= i < s.len() ==> valid_header_char(#[trigger] s[i])
}

/// Relies on http::HeaderValue::from_str, which accepts a text exactly when
/// each of its bytes is a tab, or at least 32 and not 127.
#[verifier::external_body]
fn header_value_ok(value: &str) -> (r: bool)
    ensures
        r == http_header_text(value@),
{
    http::HeaderValue::from_str(value).is_ok()
}

/// Relies on url::Url::parse and the URL's serialization.
#[verifier::external_body]
fn parse_url(text: &str) -> (r: Option<String>)
    ensures
        match r {
            Some(u) => parsed_url_of(text@) == Some(u@),
            None => parsed_url_of(text@) is None,
        },
{
    url::Url::parse(text).ok().map(String::from)
}

/// Relies on url's `query_pairs_mut().append_pair` on the URL that
/// url::Url::parse reads from `url`.
#[verifier::external_body]
fn append_query_pair(url: &str, key: &str, value: &str) -> (r: Option<String>)
    ensures
        match r {
            Some(u) => url_with_pair_of(url@, key@, value@) == Some(u@),
            None => url_with_pair_of(url@, key@, value@) is None,
        },
{
    let mut parsed = url::Url::parse(url).ok()?;
    parsed.query_pairs_mut().append_pair(key, value);
    Some(String::from(parsed))
}

/// Relies on serde_urlencoded::to_string on one `(key, value)` pair of
/// strings, which writes into a `String` and reports no error for it.
#[verifier::external_body]
fn form_pair(key: &str, value: &str) -> (r: String)
    ensures
        r@ == form_pair_of(key@, value@),
{
    serde_urlencoded::to_string([(key, value)]).unwrap_or_default()
}

/// Whether every character of `value` may stand in a header value.
pub fn is_valid_header_value(value: &str) -> (r: bool)
    ensures
        r == valid_header_text(value@),
{
    let n = value.unicode_len();
    let mut i: usize = 0;
    while i < n
        invariant
            n == value@.len(),
            i <= n,
            forall|j: int| 0 <= j < i ==> valid_header_char(#[trigger] value@[j]),
        decreases n - i,
    {
        let c = value.get_char(i);
        if !(c == '\t' || (' ' <= c && c <= '~')) {
            return false;
        }
        i += 1;
    }
    true
}

/// The headers without those called `name`, in their order.
pub open spec fn without_header(h: Seq<(Seq<char>, Seq<char>)>, name: Seq<char>) -> Seq<(Seq<char>, Seq<char>)>
    decreases h.len(),
{
    if h.len() == 0 {
        h
    } else {
        let rest = without_header(h.drop_last(), name);
        if h.last().0 == name {
            rest
        } else {
            rest.push(h.last())
        }
    }
}

/// The headers once `name` is set to `value`: an earlier header of that
/// name is replaced, and the new one comes last.
pub open spec fn with_header(h: Seq<(Seq<char>, Seq<char>)>, name: Seq<char>, value: Seq<char>) -> Seq<
    (Seq<char>, Seq<char>),
> {
    without_header(h, name).push((name, value))
}

/// Removing a header that is not there changes nothing.
proof fn lemma_without_absent(h: Seq<(Seq<char>, Seq<char>)>, name: Seq<char>)
    requires
        forall|i: int| 0 <= i < h.len() ==> #[trigger] h[i].0 != name,
    ensures
        without_header(h, name) == h,
    decreases h.len(),
{
    if h.len() > 0 {
        let init = h.drop_last();
        assert forall|i: int| 0 <= i < init.len() implies #[trigger] init[i].0 != name by {
            assert(init[i] == h[i]);
        }
        lemma_without_absent(init, name);
        assert(h[h.len() - 1].0 != name);
        assert(init.push(h.last()) =~= h);
    }
}

/// Setting a header that is not there yet appends it.
pub proof fn lemma_with_new_header(h: Seq<(Seq<char>, Seq<char>)>, name: Seq<char>, value: Seq<char>)
    requires
        forall|i: int| 0 <= i < h.len() ==> #[trigger] h[i].0 != name,
    ensures
        with_header(h, name, value) == h.push((name, value)),
{
    lemma_without_absent(h, name);
}

/// Sets header `name` to `value`, replacing an earlier header of that name.
fn insert_header(headers: Vec<(String, String)>, name: &str, value: &str) -> (r: Vec<(String, String)>)
    ensures
        header_views(r@) == with_header(header_views(headers@), name@, value@),
{
    let key = String::from_str(name);
    let mut out: Vec<(String, String)> = Vec::new();
    let mut i: usize = 0;
    while i < headers.len()
        invariant
            i <= headers@.len(),
            key@ == name@,
            header_views(out@) == without_header(header_views(headers@).subrange(0, i as int), name@),
        decreases headers@.len() - i,
    {
        let ghost pre = header_views(headers@).subrange(0, i as int + 1);
        assert(pre.drop_last() =~= header_views(headers@).subrange(0, i as int));
        if !(headers[i].0 == key) {
            out.push((headers[i].0.clone(), headers[i].1.clone()));
            assert(header_views(out@) =~= header_views(out@.drop_last()).push((out@.last().0@, out@.last().1@)));
        }
        i += 1;
    }
    assert(header_views(headers@).subrange(0, headers@.len() as int) =~= header_views(headers@));
    out.push((key, String::from_str(value)));
    assert(header_views(out@) =~= header_views(out@.drop_last()).push((name@, value@)));
    out
}

/// The HTTP method of an exchange.
#[derive(Debug, Clone, Copy, PartialEq, Eq, Structural)]
pub enum Method {
    Get,
    Post,
}

/// The views of a list of headers.
pub open spec fn header_views(h: Seq<(String, String)>) -> Seq<(Seq<char>, Seq<char>)> {
    h.map_values(|p: (String, String)| (p.0@, p.1@))
}

/// The URL of `path` on the API host, with the protocol version appended;
/// nothing where either step fails.
pub open spec fn versioned_url(path: Seq<char>) -> Option<Seq<char>> {
    match parsed_url_of(API_URL@ + path) {
        Some(u) => url_with_pair_of(u, "v"@, API_VERSION@),
        None => None,
    }
}

/// One fully built exchange, ready for the transport.
#[derive(Debug)]
pub struct Request {
    pub method: Method,
    pub url: String,
    /// Header names and values, one per name, in the order they were set.
    pub headers: Vec<(String, String)>,
    pub body: Option<String>,
}

/// Builds one exchange step by step.
#[derive(Debug)]
pub struct RequestBuilder {
    pub method: Method,
    /// The serialization of the parsed URL.
    pub url: String,
    pub headers: Vec<(String, String)>,
    /// The JSON document to send, form-encoded at build time.
    pub form: Option<String>,
}

impl RequestBuilder {
    /// Starts an exchange on `path` of the API host, with the user agent
    /// set; fails exactly when the host and path do not form a URL.
    pub fn new(method: Method, path: &str) -> (r: Result<Self, Error>)
        ensures
            r is Ok <==> parsed_url_of(API_URL@ + path@) is Some,
            r matches Ok(b) ==> {
                &&& b.method == method
                &&& parsed_url_of(API_URL@ + path@) == Some(b.url@)
                &&& header_views(b.headers@) == seq![("User-Agent"@, USER_AGENT@)]
                &&& b.form is None
            },
            r matches Err(e) ==> e == Error::Url(),
    {
        let mut text = String::from_str(API_URL);
        text.append(path);
        let url = match parse_url(text.as_str()) {
            Some(u) => u,
            None => return Err(Error::Url()),
        };
        proof {
            reveal_strlit("Android EDMOBILE v7.2.3");
        }
        let headers: Vec<(String, String)> = Vec::new();
        assert(header_views(headers@) =~= seq![]);
        let builder = RequestBuilder { method, url, headers, form: None };
        let r = builder.set_header("User-Agent", USER_AGENT);
        assert(r is Ok);
        r
    }

    /// Appends the protocol version as the last query pair `v`. The builder
    /// keeps its URL as text, so the URL is read again first; that fails
    /// exactly when the text is not a URL.
    pub fn append_version(self) -> (r: Result<Self, Error>)
        ensures
            r is Ok <==> url_with_pair_of(self.url@, "v"@, API_VERSION@) is Some,
            r matches Ok(b) ==> {
                &&& url_with_pair_of(self.url@, "v"@, API_VERSION@) == Some(b.url@)
                &&& b.method == self.method
                &&& b.headers == self.headers
                &&& b.form == self.form
            },
            r matches Err(e) ==> e == Error::Url(),
    {
        match append_query_pair(self.url.as_str(), "v", API_VERSION) {
            Some(url) => Ok(RequestBuilder { url, ..self }),
            None => Err(Error::Url()),
        }
    }

    /// Sets header `name`, replacing an earlier one of that name; fails
    /// exactly when the value holds a control or non-ASCII character.
    pub fn set_header(self, name: &str, value: &str) -> (r: Result<Self, Error>)
        ensures
            r is Ok <==> valid_header_text(value@),
            r matches Ok(b) ==> {
                &&& header_views(b.headers@) == with_header(header_views(self.headers@), name@, value@)
                &&& b.method == self.method
                &&& b.url == self.url
                &&& b.form == self.form
            },
            r matches Err(e) ==> e == Error::HeaderValue(),
    {
        if !is_valid_header_value(value) {
            return Err(Error::HeaderValue());
        }
        assert(http_header_text(value@)) by {
            assert forall|i: int| 0 <= i < value@.len() implies http_header_char(#[trigger] value@[i]) by {
                assert(valid_header_char(value@[i]));
            }
        }
        if !header_value_ok(value) {
            return Err(Error::HeaderValue());
        }
        let headers = insert_header(self.headers, name, value);
        Ok(RequestBuilder { method: self.method, url: self.url, headers, form: self.form })
    }

    /// Sets the session token header.
    pub fn set_token(self, token: &str) -> (r: Result<Self, Error>)
        ensures
            r is Ok <==> valid_header_text(token@),
            r matches Ok(b) ==> {
                &&& header_views(b.headers@) == with_header(header_views(self.headers@), "X-Token"@, token@)
                &&& b.method == self.method
                &&& b.url == self.url
                &&& b.form == self.form
            },
            r matches Err(e) ==> e == Error::HeaderValue(),
    {
        self.set_header("X-Token", token)
    }

    /// Sets the JSON document to send.
    pub fn set_form(self, document: String) -> (r: Self)
        ensures
            r.form == Some(document),
            r.method == self.method,
            r.url == self.url,
            r.headers == self.headers,
    {
        RequestBuilder { form: Some(document), ..self }
    }

    /// Finishes the exchange. A JSON document becomes the value of the single
    /// form field `data`, and the content type is set.
    pub fn build(self) -> (r: Result<Request, Error>)
        ensures
            r is Ok,
            r matches Ok(q) ==> {
                &&& q.method == self.method
                &&& q.url == self.url
                &&& match self.form {
                    None => q.headers == self.headers && q.body is None,
                    Some(doc) => {
                        &&& header_views(q.headers@) == with_header(
                            header_views(self.headers@),
                            "Content-Type"@,
                            "application/x-www-form-urlencoded"@,
                        )
                        &&& q.body is Some
                        &&& q.body.unwrap()@ == form_pair_of("data"@, doc@)
                    },
                }
            },
    {
        match self.form {
            None => Ok(Request { method: self.method, url: self.url, headers: self.headers, body: None }),
            Some(doc) => {
                let body = form_pair("data", doc.as_str());
                let headers = insert_header(self.headers, "Content-Type", "application/x-www-form-urlencoded");
                Ok(Request { method: self.method, url: self.url, headers, body: Some(body) })
            },
        }
    }
}

/// The session token after a response: the token the response carried, or
/// the current one when it carried none.
pub open spec fn rotated(current: Option<String>, received: Option<String>) -> Option<String> {
    match received {
        Some(t) => Some(t),
        None => current,
    }
}

/// Owns the credentials of one session and threads the rotating session
/// token from each response into the next exchange.
#[derive(Debug)]
pub struct RequestManager {
    pub authentication: Authentication,
}

impl RequestManager {
    pub fn new(authentication: Authentication) -> (r: Self)
        ensures
            r.authentication == authentication,
    {
        RequestManager { authentication }
    }

    /// Records the token that a decoded response envelope carried; a
    /// response without one leaves the current token in place.
    pub fn receive_token(&mut self, token: Option<String>)
        ensures
            final(self).authentication == (Authentication {
                token: rotated(old(self).authentication.token, token),
                ..old(self).authentication
            }),
    {
        match token {
            Some(t) => {
                self.authentication.token = Some(t);
            },
            None => {},
        }
    }
}

} // verus!
