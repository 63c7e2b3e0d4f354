//! A client of one server: where the server is, and who asks.

use crate::client::error_response::SftpgoError;
use vstd::prelude::*;

verus! {

/// What `Url::parse` of the url crate makes of a text: the URL as the
/// crate writes it out, or the message of the parse error.
pub uninterp spec fn url_parse(input: Seq<char>) -> Result<Seq<char>, Seq<char>>;

/// What `Url::join` of the url crate makes of an endpoint on the base
/// URL that `Url::parse` reads from `base`: the joined URL as the crate
/// writes it out, or the message of the parse error of either step.
pub uninterp spec fn url_join(base: Seq<char>, endpoint: Seq<char>) -> Result<Seq<char>, Seq<char>>;

/// The texts of a result of texts.
pub open spec fn text_result(r: Result<String, String>) -> Result<Seq<char>, Seq<char>> {
    match r {
        Ok(s) => Ok(s@),
        Err(e) => Err(e@),
    }
}

/// Calls `Url::parse` of the url crate. The contract names the result;
/// the URL is handed back as text, the error as its message.
#[verifier::external_body]
pub(crate) fn parse_url(input: &str) -> (r: Result<String, String>)
    ensures
        text_result(r) == url_parse(input@),
{
    match url::Url::parse(input) {
        Ok(u) => Ok(String::from(u)),
        Err(e) => Err(e.to_string()),
    }
}

/// Calls `Url::join` of the url crate on the URL read from `base`. The
/// contract names the result; the URL is handed back as text, the
/// error as its message.
#[verifier::external_body]
pub(crate) fn join_url(base: &str, endpoint: &str) -> (r: Result<String, String>)
    ensures
        text_result(r) == url_join(base@, endpoint@),
{
    let joined = match url::Url::parse(base) {
        Ok(b) => b.join(endpoint),
        Err(e) => Err(e),
    };
    match joined {
        Ok(u) => Ok(String::from(u)),
        Err(e) => Err(e.to_string()),
    }
}

/// Whether `r` is the URL of an endpoint, given what joining it to the
/// base URL gave: the joined URL, or the failure to build one.
pub open spec fn is_endpoint_url(
    joined: Result<Seq<char>, Seq<char>>,
    r: Result<String, SftpgoError>,
) -> bool {
    match joined {
        Ok(u) => r matches Ok(s) && s@ == u,
        Err(m) => r matches Err(SftpgoError::UrlBuildingFailed(x)) && x@ == m,
    }
}

/// The URL of an endpoint, given what joining it to the base URL gave.
pub fn endpoint_url(joined: Result<String, String>) -> (r: Result<String, SftpgoError>)
    ensures
        is_endpoint_url(text_result(joined), r),
{
    match joined {
        Ok(u) => Ok(u),
        Err(m) => Err(SftpgoError::UrlBuildingFailed(m)),
    }
}

/// A client that knows where its server is.
pub trait SftpgoClientBase {
    /// The base URL of the server.
    spec fn spec_base_url(&self) -> Seq<char>;

    /// The URL of an endpoint of the server: the endpoint joined to the
    /// base URL.
    fn url_for(&self, endpoint: &str) -> (r: Result<String, SftpgoError>)
        ensures
            is_endpoint_url(url_join(self.spec_base_url(), endpoint@), r),
    ;
}

/// A client that knows its server and who asks.
pub trait AuthorizedSftpgoClientBase: SftpgoClientBase {
    /// What the credentials of the client are held in.
    type Context;

    /// The credentials of the client.
    spec fn spec_auth_context(&self) -> Self::Context;

    /// The credentials of the client.
    fn get_auth_context(&self) -> (r: &Self::Context)
        ensures
            *r == self.spec_auth_context(),
    ;
}

/// A client of one server, without credentials.
#[derive(Debug, Clone)]
pub struct SftpgoClient {
    pub base_url: String,
}

impl SftpgoClient {
    /// A client of the server at `base_url`.
    pub fn new(base_url: String) -> (c: Self)
        ensures
            c.base_url@ == base_url@,
    {
        Self { base_url }
    }

    /// The client with the credentials of `auth_context`.
    pub fn with_auth_context<TAuthContext>(&self, auth_context: TAuthContext) -> (c:
        AuthorizedSftpgoClient<TAuthContext>)
        ensures
            c.client.base_url@ == self.base_url@,
            c.auth_context == auth_context,
    {
        AuthorizedSftpgoClient {
            client: SftpgoClient { base_url: self.base_url.clone() },
            auth_context,
        }
    }

}

impl SftpgoClientBase for SftpgoClient {
    open spec fn spec_base_url(&self) -> Seq<char> {
        self.base_url@
    }

    fn url_for(&self, endpoint: &str) -> (r: Result<String, SftpgoError>) {
        endpoint_url(join_url(self.base_url.as_str(), endpoint))
    }
}

/// A client of one server with the credentials of one administrator.
#[derive(Debug, Clone)]
pub struct AuthorizedSftpgoClient<TAuthContext> {
    pub client: SftpgoClient,
    pub auth_context: TAuthContext,
}

impl<TAuthContext> SftpgoClientBase for AuthorizedSftpgoClient<TAuthContext> {
    open spec fn spec_base_url(&self) -> Seq<char> {
        self.client.base_url@
    }

    fn url_for(&self, endpoint: &str) -> (r: Result<String, SftpgoError>) {
        self.client.url_for(endpoint)
    }
}

impl<TAuthContext> AuthorizedSftpgoClientBase for AuthorizedSftpgoClient<TAuthContext> {
    type Context = TAuthContext;

    open spec fn spec_auth_context(&self) -> TAuthContext {
        self.auth_context
    }

    fn get_auth_context(&self) -> (r: &TAuthContext) {
        &self.auth_context
    }
}

} // verus!
