use vstd::prelude::*;

use crate::error::Error;

verus! {

/// The HTTP verbs the API uses.
#[derive(Clone, Copy, Debug, PartialEq, Eq, Structural)]
pub enum Method {
    Get,
    Post,
    Put,
    Delete,
}

/// The view of a header or query entry.
pub type Pair = (Seq<char>, Seq<char>);

/// An outgoing request, described as plain values: the transport turns it
/// into a network call.
#[derive(Debug)]
pub struct Request {
    pub method: Method,
    /// The full URL: endpoint and percent-encoded path segments.
    pub url: String,
    /// Headers, in the order they were attached.
    pub headers: Vec<(String, String)>,
    /// Query parameters, in the order they were attached; a key may repeat.
    pub query: Vec<(String, String)>,
    /// The JSON body, when there is one.
    pub body: Option<Vec<u8>>,
}

pub struct RequestView {
    pub method: Method,
    pub url: Seq<char>,
    pub headers: Seq<Pair>,
    pub query: Seq<Pair>,
    pub body: Option<Seq<u8>>,
}

impl View for Request {
    type V = RequestView;

    open spec fn view(&self) -> RequestView {
        RequestView {
            method: self.method,
            url: self.url@,
            headers: self.headers.deep_view(),
            query: self.query.deep_view(),
            body: match self.body {
                Some(b) => Some(b@),
                None => None,
            },
        }
    }
}

/// What `url` becomes when the path segments `segments` are appended to the
/// path of the base URL `base`, each segment percent-encoded; `None` when
/// `base` is not a URL that can carry a path.
pub uninterp spec fn url_with_path(base: Seq<char>, segments: Seq<Seq<char>>) -> Option<Seq<char>>;

/// The views of a sequence of string slices.
pub open spec fn views(parts: Seq<&str>) -> Seq<Seq<char>> {
    parts.map_values(|p: &str| p@)
}

/// Relies on `reqwest::Url` (the url crate): `parse`, then
/// `path_segments_mut().pop_if_empty().extend(..)`, which percent-encodes each
/// segment; the result depends on the arguments alone.
#[verifier::external_body]
fn join_url(base: &str, segments: &Vec<&str>) -> (r: Option<String>)
    ensures
        match r {
            Some(u) => url_with_path(base@, views(segments@)) == Some(u@),
            None => url_with_path(base@, views(segments@)) is None,
        },
{
    let mut url = reqwest::Url::parse(base).ok()?;
    url.path_segments_mut().ok()?.pop_if_empty().extend(segments);
    Some(url.to_string())
}

/// The decimal digits of `n`, most significant first.
pub open spec fn decimal(n: nat) -> Seq<char>
    decreases n,
{
    if n < 10 {
        seq![digit_char(n)]
    } else {
        decimal(n / 10) + seq![digit_char(n % 10)]
    }
}

pub open spec fn digit_char(d: nat) -> char {
    if d == 0 { '0' } else if d == 1 { '1' } else if d == 2 { '2' } else if d == 3 { '3' }
    else if d == 4 { '4' } else if d == 5 { '5' } else if d == 6 { '6' } else if d == 7 { '7' }
    else if d == 8 { '8' } else { '9' }
}

fn digit_str(d: u64) -> (r: &'static str)
    requires
        d < 10,
    ensures
        r@ == seq![digit_char(d as nat)],
{
    proof {
        reveal_strlit("0");
        reveal_strlit("1");
        reveal_strlit("2");
        reveal_strlit("3");
        reveal_strlit("4");
        reveal_strlit("5");
        reveal_strlit("6");
        reveal_strlit("7");
        reveal_strlit("8");
        reveal_strlit("9");
    }
    if d == 0 { "0" } else if d == 1 { "1" } else if d == 2 { "2" } else if d == 3 { "3" }
    else if d == 4 { "4" } else if d == 5 { "5" } else if d == 6 { "6" } else if d == 7 { "7" }
    else if d == 8 { "8" } else { "9" }
}

/// The decimal representation of `n`, as a query value.
pub fn decimal_string(n: u64) -> (r: String)
    ensures
        r@ == decimal(n as nat),
    decreases n,
{
    if n < 10 {
        String::from_str(digit_str(n))
    } else {
        let head = decimal_string(n / 10);
        head.concat(digit_str(n % 10))
    }
}

/// The authorization header value for an API key.
pub open spec fn bearer(api_key: Seq<char>) -> Seq<char> {
    "Bearer "@ + api_key
}

/// The endpoint used when none is configured.
pub const DEFAULT_ENDPOINT: &'static str = "https://api.withorb.com/v1";

/// Client configuration.
pub struct ClientConfig {
    /// The API key to authenticate with.
    pub api_key: String,
}

/// The read-only configuration every request is built from: the endpoint and
/// the credential. It holds no mutable state and performs no I/O.
pub struct Client {
    pub endpoint: String,
    pub api_key: String,
}

impl Client {
    /// A client for the default endpoint.
    pub fn new(config: ClientConfig) -> (r: Client)
        ensures
            r.endpoint@ == DEFAULT_ENDPOINT@,
            r.api_key@ == config.api_key@,
    {
        Client { endpoint: String::from_str(DEFAULT_ENDPOINT), api_key: config.api_key }
    }

    /// A client for the given endpoint (a test server, for instance).
    pub fn with_endpoint(config: ClientConfig, endpoint: String) -> (r: Client)
        ensures
            r.endpoint@ == endpoint@,
            r.api_key@ == config.api_key@,
    {
        Client { endpoint, api_key: config.api_key }
    }

    /// The base request for `method` on the path `segments`, or `None` when
    /// the endpoint cannot carry a path.
    pub open spec fn request_spec(&self, method: Method, segments: Seq<Seq<char>>) -> Option<
        RequestView,
    > {
        match url_with_path(self.endpoint@, segments) {
            Some(u) => Some(
                RequestView {
                    method,
                    url: u,
                    headers: seq![("Authorization"@, bearer(self.api_key@))],
                    query: Seq::empty(),
                    body: None,
                },
            ),
            None => None,
        }
    }

    /// Builds the base request for `method` on the path `segments`: the URL
    /// is the endpoint with the segments appended, and the only header is the
    /// bearer authorization. Fails with a `Transport` error when the endpoint
    /// cannot carry a path.
    pub fn build_request(&self, method: Method, segments: Vec<&str>) -> (r: Result<Request, Error>)
        ensures
            match self.request_spec(method, views(segments@)) {
                Some(v) => r matches Ok(req) && req@ == v,
                None => r matches Err(Error::Transport { .. }),
            },
    {
        match join_url(self.endpoint.as_str(), &segments) {
            Some(url) => {
                let value = String::from_str("Bearer ").concat(self.api_key.as_str());
                let mut headers: Vec<(String, String)> = Vec::new();
                headers.push((String::from_str("Authorization"), value));
                let r = Request { method, url, headers, query: Vec::new(), body: None };
                proof {
                    assert(r@.headers =~= seq![("Authorization"@, bearer(self.api_key@))]);
                    assert(r@.query =~= Seq::<Pair>::empty());
                }
                Ok(r)
            },
            None => Err(
                Error::Transport { detail: String::from_str("endpoint URL cannot carry a path") },
            ),
        }
    }
}

impl Request {
    /// Appends the query parameter `key=value`; earlier parameters, including
    /// ones with the same key, are kept.
    pub fn query(self, key: &str, value: &str) -> (r: Request)
        ensures
            r@ == (RequestView { query: self@.query.push((key@, value@)), ..self@ }),
    {
        let mut r = self;
        r.query.push((String::from_str(key), String::from_str(value)));
        proof {
            assert(r@.query =~= self@.query.push((key@, value@)));
            assert(r@.headers =~= self@.headers);
        }
        r
    }

    /// Appends the header `name: value`.
    pub fn header(self, name: &str, value: &str) -> (r: Request)
        ensures
            r@ == (RequestView { headers: self@.headers.push((name@, value@)), ..self@ }),
    {
        let mut r = self;
        r.headers.push((String::from_str(name), String::from_str(value)));
        proof {
            assert(r@.headers =~= self@.headers.push((name@, value@)));
            assert(r@.query =~= self@.query);
        }
        r
    }

    /// Sets the JSON body.
    pub fn json(self, body: Vec<u8>) -> (r: Request)
        ensures
            r@ == (RequestView { body: Some(body@), ..self@ }),
    {
        let mut r = self;
        r.body = Some(body);
        proof {
            assert(r@.headers =~= self@.headers);
            assert(r@.query =~= self@.query);
        }
        r
    }
}

} // verus!

verus! {

fn copy_pairs(v: &Vec<(String, String)>) -> (r: Vec<(String, String)>)
    ensures
        r.deep_view() == v.deep_view(),
{
    let mut r: Vec<(String, String)> = Vec::new();
    let mut i: usize = 0;
    while i < v.len()
        invariant
            i <= v.len(),
            r.deep_view() =~= v.deep_view().subrange(0, i as int),
        decreases v.len() - i,
    {
        let a = v[i].0.clone();
        let b = v[i].1.clone();
        let ghost before = r.deep_view();
        r.push((a, b));
        proof {
            assert(r.deep_view() =~= before.push(v.deep_view()[i as int]));
            assert(v.deep_view().subrange(0, i + 1) =~= v.deep_view().subrange(0, i as int).push(
                v.deep_view()[i as int],
            ));
        }
        i = i + 1;
    }
    r
}

fn copy_bytes(v: &Vec<u8>) -> (r: Vec<u8>)
    ensures
        r@ == v@,
{
    let mut r: Vec<u8> = Vec::new();
    let mut i: usize = 0;
    while i < v.len()
        invariant
            i <= v.len(),
            r@ =~= v@.subrange(0, i as int),
        decreases v.len() - i,
    {
        r.push(v[i]);
        i = i + 1;
    }
    r
}

impl Request {
    /// An independent copy of this request.
    pub fn duplicate(&self) -> (r: Request)
        ensures
            r@ == self@,
    {
        let body = match &self.body {
            Some(b) => Some(copy_bytes(b)),
            None => None,
        };
        Request {
            method: self.method,
            url: self.url.clone(),
            headers: copy_pairs(&self.headers),
            query: copy_pairs(&self.query),
            body,
        }
    }
}

} // verus!
