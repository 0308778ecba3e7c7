//! The request configuration of the headlines API and the building of its URL.

use vstd::prelude::*;
use crate::model::NewsApiError;

verus! {

/// The fixed base of every request URL.
pub const BASE_URL: &'static str = "https://newsapi.org/v2";

/// The country whose headlines are requested.
#[derive(Clone, Copy, Debug, PartialEq, Eq, Structural)]
pub enum Country {
    Us,
    De,
}

impl Country {
    /// The code of the country on the wire.
    pub open spec fn code(self) -> Seq<char> {
        match self {
            Country::Us => "us"@,
            Country::De => "de"@,
        }
    }

    pub fn to_string(&self) -> (r: String)
        ensures
            r@ == self.code(),
    {
        match self {
            Country::De => "de".to_string(),
            Country::Us => "us".to_string(),
        }
    }
}

/// The endpoint of the API that a request goes to.
#[derive(Clone, Copy, Debug, PartialEq, Eq, Structural)]
pub enum Endpoint {
    TopHeadlines,
}

impl Endpoint {
    /// The path segment of the endpoint.
    pub open spec fn segment(self) -> Seq<char> {
        match self {
            Endpoint::TopHeadlines => "top-headlines"@,
        }
    }

    pub fn to_string(&self) -> (r: String)
        ensures
            r@ == self.segment(),
    {
        match self {
            Endpoint::TopHeadlines => "top-headlines".to_string(),
        }
    }
}

/// The query of a request for the headlines of `country`.
pub open spec fn country_query(country: Country) -> Seq<char> {
    "country="@ + country.code()
}

/// What `url_join(base, segment, query)` serialises to, or `None` where the
/// base is no URL that can hold path segments.
pub uninterp spec fn joined_url(base: Seq<char>, segment: Seq<char>, query: Seq<char>) -> Option<Seq<char>>;

/// Relies on `url::Url::parse` to parse `base`, on `Url::path_segments_mut`
/// and `PathSegmentsMut::push` to append `segment` as one more path segment,
/// on `Url::set_query` to set the query to `query`, and on
/// `String::from(Url)` for the serialisation; the outcome depends on the three
/// strings alone. A base that parses but cannot hold path segments is
/// reported as `ParseError::RelativeUrlWithCannotBeABaseBase`. The bound on the lengths keeps the
/// serialisation under the `u32` offsets that `Url` panics beyond.
#[verifier::external_body]
fn url_join(base: &str, segment: &str, query: &str) -> (r: Result<String, url::ParseError>)
    requires
        base@.len() + segment@.len() + query@.len() < 100_000_000,
    ensures
        match r {
            Ok(s) => joined_url(base@, segment@, query@) == Some(s@),
            Err(_) => joined_url(base@, segment@, query@) is None,
        },
{
    let mut url = url::Url::parse(base)?;
    url.path_segments_mut()
        .map_err(|()| url::ParseError::RelativeUrlWithCannotBeABaseBase)?
        .push(segment);
    url.set_query(Some(query));
    Ok(String::from(url))
}

/// What a request configuration holds, as mathematical values.
pub struct RequestConfig {
    pub api_key: Seq<char>,
    pub endpoint: Endpoint,
    pub country: Country,
}

/// The URL that a request of `cfg` goes to, where it can be built. It depends
/// on the endpoint and the country alone: the API key is not part of it.
pub open spec fn request_url(cfg: RequestConfig) -> Option<Seq<char>> {
    joined_url(BASE_URL@, cfg.endpoint.segment(), country_query(cfg.country))
}

/// A client of the headlines API.
pub struct NewsApi {
    api_key: String,
    endpoint: Endpoint,
    country: Country,
}

impl View for NewsApi {
    type V = RequestConfig;

    closed spec fn view(&self) -> RequestConfig {
        RequestConfig { api_key: self.api_key@, endpoint: self.endpoint, country: self.country }
    }
}

impl NewsApi {
    /// A client for `api_key`, asking for the top headlines of Germany.
    pub fn new(api_key: &str) -> (r: NewsApi)
        ensures
            r@ == (RequestConfig { api_key: api_key@, endpoint: Endpoint::TopHeadlines, country: Country::De }),
    {
        NewsApi { api_key: api_key.to_string(), endpoint: Endpoint::TopHeadlines, country: Country::De }
    }

    pub fn endpoint(&mut self, endpoint: Endpoint) -> (r: &mut NewsApi)
        ensures
            (*r)@ == (RequestConfig { endpoint, ..old(self)@ }),
            *final(self) == *final(r),
    {
        self.endpoint = endpoint;
        self
    }

    pub fn country(&mut self, country: Country) -> (r: &mut NewsApi)
        ensures
            (*r)@ == (RequestConfig { country, ..old(self)@ }),
            *final(self) == *final(r),
    {
        self.country = country;
        self
    }

    /// The API key, which a request sends in a header.
    pub fn api_key(&self) -> (r: &str)
        ensures
            r@ == self@.api_key,
    {
        self.api_key.as_str()
    }

    /// The URL of the request: the base URL, the endpoint as one more path
    /// segment, and `country=<code>` as the query.
    pub fn prepare_url(&self) -> (r: Result<String, NewsApiError>)
        ensures
            match r {
                Ok(s) => request_url(self@) == Some(s@),
                Err(e) => request_url(self@) is None && e is UrlParseError,
            },
    {
        let segment = self.endpoint.to_string();
        let code = self.country.to_string();
        let query = "country=".to_string().concat(code.as_str());
        proof {
            reveal_strlit("https://newsapi.org/v2");
            reveal_strlit("top-headlines");
            reveal_strlit("country=");
            reveal_strlit("de");
            reveal_strlit("us");
        }
        match url_join(BASE_URL, segment.as_str(), query.as_str()) {
            Ok(s) => Ok(s),
            Err(e) => Err(NewsApiError::UrlParseError(e)),
        }
    }
}

/// The request URL is fixed by the endpoint and the country: two clients that
/// agree on both, whatever their API keys, ask for the same URL, and its query
/// is `country=<code>`.
pub proof fn request_url_depends_on_route_only(a: RequestConfig, b: RequestConfig)
    requires
        a.endpoint == b.endpoint,
        a.country == b.country,
    ensures
        request_url(a) == request_url(b),
        request_url(a) == joined_url(BASE_URL@, a.endpoint.segment(), "country="@ + a.country.code()),
{
}

} // verus!
