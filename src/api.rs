use vstd::prelude::*;
use vstd::string::*;
use crate::endpoint::{Endpoint, endpoint_path};
use crate::query::{Entries, Params, query_of};

verus! {

/// The host and version prefix that requests go to unless another is given.
pub const BASE_URL: &'static str = "https://api.datamaxiplus.com/api/v1";

/// The header that carries the API key.
pub const API_KEY_HEADER: &'static str = "X-DTMX-APIKEY";

/// Constructors shared by every resource facade. The two build the same
/// client but for the host it sends to.
pub trait Datamaxi: Sized {
    /// The client that the facade sends its requests with.
    spec fn api_client(&self) -> Client;

    /// A facade that sends `api_key` to the default base URL.
    fn new(api_key: String) -> (r: Self)
        ensures
            r.api_client().base_url@ == BASE_URL@,
            r.api_client().api_key@ == api_key@,
    ;

    /// A facade that sends `api_key` to `base_url`.
    fn new_with_base_url(api_key: String, base_url: String) -> (r: Self)
        ensures
            r.api_client().base_url@ == base_url@,
            r.api_client().api_key@ == api_key@,
    ;
}

/// What a client is built from.
pub struct Config {
    /// The base URL; `None` stands for [`BASE_URL`].
    pub base_url: Option<String>,
    /// The API key sent with every request.
    pub api_key: String,
}

/// Where requests go and the key they carry. It does not change once built.
#[derive(Clone, Debug)]
pub struct Client {
    pub base_url: String,
    pub api_key: String,
}

/// One GET: its full URL, and the API key for the [`API_KEY_HEADER`] header.
#[derive(Clone, Debug)]
pub struct Request {
    pub url: String,
    pub api_key: String,
}

/// The URL of a request: base, path, then `?` and the query unless it is empty.
pub open spec fn request_url(base: Seq<char>, path: Seq<char>, query: Seq<char>) -> Seq<char> {
    if query.len() == 0 {
        base + path
    } else {
        base + path + seq!['?'] + query
    }
}

/// `r` is the GET that `c` sends for operation `e` with the parameters `s`.
pub open spec fn is_get(r: Request, c: Client, e: Endpoint, s: Entries) -> bool {
    &&& r.url@ == request_url(c.base_url@, endpoint_path(e), query_of(s))
    &&& r.api_key@ == c.api_key@
}

impl Client {
    /// A client for `config`, on [`BASE_URL`] where it names no base URL.
    pub fn new(config: Config) -> (r: Client)
        ensures
            r.base_url@ == match config.base_url {
                Some(b) => b@,
                None => BASE_URL@,
            },
            r.api_key@ == config.api_key@,
    {
        let base_url = match config.base_url {
            Some(b) => b,
            None => BASE_URL.to_owned(),
        };
        Client { base_url, api_key: config.api_key }
    }

    /// The GET for operation `endpoint` with the parameters `params`.
    pub fn get(&self, endpoint: Endpoint, params: &Params) -> (r: Request)
        ensures
            is_get(r, *self, endpoint, params@),
    {
        let mut url = self.base_url.clone();
        url.append(endpoint.path());
        let query = params.to_query();
        if !query.as_str().is_empty() {
            url.append("?");
            url.append(query.as_str());
            proof {
                reveal_strlit("?");
                assert(url@ =~= self.base_url@ + endpoint_path(endpoint) + seq!['?'] + query@);
            }
        }
        Request { url, api_key: self.api_key.clone() }
    }
}

/// Where the path of a request of `c` for `e` ends in its URL.
pub open spec fn path_end(c: Client, e: Endpoint) -> int {
    (c.base_url@.len() + endpoint_path(e).len()) as int
}

/// Every request's URL is its client's base URL followed by exactly the path
/// that the fixed table gives its operation, and then either nothing or `?`
/// and the query string.
pub proof fn lemma_url_path(r: Request, c: Client, e: Endpoint, s: Entries)
    requires
        is_get(r, c, e, s),
    ensures
        r.url@.len() >= path_end(c, e),
        r.url@.take(path_end(c, e)) == c.base_url@ + endpoint_path(e),
        r.url@.len() == path_end(c, e) || r.url@[path_end(c, e)] == '?',
{
    let prefix = c.base_url@ + endpoint_path(e);
    if query_of(s).len() == 0 {
        assert(r.url@.take(prefix.len() as int) =~= prefix);
    } else {
        assert(r.url@ == prefix + seq!['?'] + query_of(s));
        assert(r.url@.take(prefix.len() as int) =~= prefix);
    }
}

/// Building a request is idempotent: two requests built by the same client for
/// the same operation and the same parameters (the same options object, say)
/// carry the same URL, query string included, and the same key.
pub proof fn lemma_request_idempotent(r1: Request, r2: Request, c: Client, e: Endpoint, s: Entries)
    requires
        is_get(r1, c, e, s),
        is_get(r2, c, e, s),
    ensures
        r1.url@ == r2.url@,
        r1.api_key@ == r2.api_key@,
{
}

} // verus!
