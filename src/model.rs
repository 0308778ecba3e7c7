//! The response envelope of the headlines API and its classification.

use vstd::prelude::*;

verus! {

/// The message carried by the error for a disabled API key.
pub const KEY_DISABLED_MESSAGE: &'static str = "Your API key has been disabled";

/// An error of one fetch of a page of headlines.
#[derive(Debug)]
pub enum NewsApiError {
    /// The transport failed (connection, DNS, timeout, non-success status).
    RequestError(String),
    /// The response body could not be read as text.
    StringParseError(String),
    /// The response body is not JSON of the expected shape.
    JsonParseError(String),
    /// The request URL could not be built.
    UrlParseError(url::ParseError),
    /// The API rejected the request for a known reason.
    BadRequest(&'static str),
    /// The API rejected the request for an unknown or unstated reason.
    UnknownError,
    /// The asynchronous transport failed.
    AsyncRequestFailed(String),
}

/// Relied on as an opaque value: the error that `url::Url::parse` reports.
#[verifier::external_type_specification]
#[verifier::external_body]
pub struct ExParseError(url::ParseError);

/// Whether a status field marks a successful response.
pub open spec fn is_ok_status(status: Seq<char>) -> bool {
    status == "ok"@
}

/// Whether a rejection code names a disabled API key.
pub open spec fn is_key_disabled(code: Option<Seq<char>>) -> bool {
    code == Some("apiKeyDisabled"@)
}

/// The error that a rejection code maps to.
pub open spec fn rejection_for(code: Option<Seq<char>>, e: NewsApiError) -> bool {
    if is_key_disabled(code) {
        e matches NewsApiError::BadRequest(m) && m@ == KEY_DISABLED_MESSAGE@
    } else {
        e is UnknownError
    }
}

/// The articles that a response hands upward: those of an `"ok"` response,
/// none of any other.
pub open spec fn accepted_articles(v: ResponseView) -> Option<Seq<ArticleView>> {
    if is_ok_status(v.status) {
        Some(v.articles)
    } else {
        None
    }
}

/// An accepted response exposes exactly the articles it was built from, in
/// their order and number.
pub proof fn accepted_articles_are_the_parsed_ones(v: ResponseView)
    requires
        is_ok_status(v.status),
    ensures
        accepted_articles(v) == Some(v.articles),
{
}

/// The view of an optional string.
pub open spec fn opt_view(s: Option<String>) -> Option<Seq<char>> {
    match s {
        Some(t) => Some(t@),
        None => None,
    }
}

/// What an article holds, as mathematical values.
pub struct ArticleView {
    pub title: Seq<char>,
    pub url: Seq<char>,
    pub description: Option<Seq<char>>,
}

/// One news article of a response.
#[derive(Debug, Clone)]
pub struct Article {
    title: String,
    url: String,
    description: Option<String>,
}

impl View for Article {
    type V = ArticleView;

    closed spec fn view(&self) -> ArticleView {
        ArticleView { title: self.title@, url: self.url@, description: opt_view(self.description) }
    }
}

impl Article {
    pub fn new(title: String, url: String, description: Option<String>) -> (r: Article)
        ensures
            r@ == (ArticleView { title: title@, url: url@, description: opt_view(description) }),
    {
        Article { title, url, description }
    }

    pub fn title(&self) -> (r: &str)
        ensures
            r@ == self@.title,
    {
        self.title.as_str()
    }

    pub fn url(&self) -> (r: &str)
        ensures
            r@ == self@.url,
    {
        self.url.as_str()
    }

    pub fn desc(&self) -> (r: Option<&str>)
        ensures
            match r {
                Some(d) => self@.description == Some(d@),
                None => self@.description is None,
            },
    {
        match &self.description {
            Some(d) => Some(d.as_str()),
            None => None,
        }
    }
}

/// What a response envelope holds, as mathematical values.
pub struct ResponseView {
    pub status: Seq<char>,
    pub code: Option<Seq<char>>,
    pub articles: Seq<ArticleView>,
}

/// The envelope of one response of the headlines API.
#[derive(Debug)]
pub struct NewsApiResponse {
    code: Option<String>,
    status: String,
    articles: Vec<Article>,
}

impl View for NewsApiResponse {
    type V = ResponseView;

    closed spec fn view(&self) -> ResponseView {
        ResponseView {
            status: self.status@,
            code: opt_view(self.code),
            articles: self.articles@.map_values(|a: Article| a@),
        }
    }
}

impl NewsApiResponse {
    pub fn new(status: String, code: Option<String>, articles: Vec<Article>) -> (r: NewsApiResponse)
        ensures
            r@ == (ResponseView {
                status: status@,
                code: opt_view(code),
                articles: articles@.map_values(|a: Article| a@),
            }),
    {
        NewsApiResponse { code, status, articles }
    }

    pub fn articles(&self) -> (r: &Vec<Article>)
        ensures
            r@.map_values(|a: Article| a@) == self@.articles,
    {
        &self.articles
    }

    pub fn status(&self) -> (r: &str)
        ensures
            r@ == self@.status,
    {
        self.status.as_str()
    }

    pub fn code(&self) -> (r: Option<&str>)
        ensures
            match r {
                Some(c) => self@.code == Some(c@),
                None => self@.code is None,
            },
    {
        match &self.code {
            Some(c) => Some(c.as_str()),
            None => None,
        }
    }

    /// Accepts the envelope when its status is `"ok"`; otherwise turns its
    /// rejection code into an error.
    pub fn classify(self) -> (r: Result<NewsApiResponse, NewsApiError>)
        ensures
            match r {
                Ok(accepted) => accepted == self && accepted_articles(self@) == Some(accepted@.articles),
                Err(e) => accepted_articles(self@) is None && rejection_for(self@.code, e),
            },
    {
        let ok = "ok".to_string();
        if self.status == ok {
            Ok(self)
        } else {
            Err(map_response_err(self.code))
        }
    }
}

/// Maps the rejection code of a failed response to an error.
pub fn map_response_err(code: Option<String>) -> (r: NewsApiError)
    ensures
        rejection_for(opt_view(code), r),
{
    match code {
        Some(c) => {
            let disabled = "apiKeyDisabled".to_string();
            if c == disabled {
                NewsApiError::BadRequest(KEY_DISABLED_MESSAGE)
            } else {
                NewsApiError::UnknownError
            }
        },
        None => NewsApiError::UnknownError,
    }
}

} // verus!
