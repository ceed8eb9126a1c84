use reqwest::Error as HttpError;
use std::time::Duration;
use vstd::prelude::*;

verus! {

/// `reqwest::Client`, the HTTP client that requests are sent with; opaque.
#[verifier::external_type_specification]
#[verifier::external_body]
pub struct ExClient(reqwest::Client);

/// `reqwest::ClientBuilder`, the configuration of a client under construction; opaque.
#[verifier::external_type_specification]
#[verifier::external_body]
pub struct ExClientBuilder(reqwest::ClientBuilder);

/// Relies on the derived `Clone` of `reqwest::Client` (an `Arc` inside),
/// which shares the underlying connection pool.
pub assume_specification[ <reqwest::Client as Clone>::clone ](
    client: &reqwest::Client,
) -> reqwest::Client;

/// The settings that an HTTP client was built with.
pub struct ClientSettings {
    /// The `User-Agent` header sent with every request, where one was set
    pub user_agent: Option<Seq<char>>,
    /// The total timeout of every request, where one was set
    pub timeout: Option<Duration>,
}

/// A `reqwest::ClientBuilder` together with a record of the settings handed
/// to it. Only the functions of this module change either.
pub struct HttpClientBuilder {
    inner: reqwest::ClientBuilder,
    settings: Ghost<ClientSettings>,
}

/// A `reqwest::Client` together with the settings it was built with, or
/// `None` for a client that the caller configured.
pub struct HttpClient {
    inner: reqwest::Client,
    settings: Ghost<Option<ClientSettings>>,
}

impl View for HttpClientBuilder {
    type V = ClientSettings;

    closed spec fn view(&self) -> ClientSettings {
        self.settings@
    }
}

impl View for HttpClient {
    type V = Option<ClientSettings>;

    closed spec fn view(&self) -> Option<ClientSettings> {
        self.settings@
    }
}

impl HttpClientBuilder {
    /// Relies on `reqwest::Client::builder`, which starts from the default
    /// configuration: no user agent and no timeout.
    #[verifier::external_body]
    pub fn new() -> (r: HttpClientBuilder)
        ensures
            r@ == (ClientSettings { user_agent: None, timeout: None }),
    {
        HttpClientBuilder {
            inner: reqwest::Client::builder(),
            settings: Ghost(ClientSettings { user_agent: None, timeout: None }),
        }
    }

    /// Relies on `reqwest::ClientBuilder::user_agent`, which records the
    /// header value or, where `agent` is not a valid header value, an error
    /// that `build` reports.
    #[verifier::external_body]
    pub fn user_agent(self, agent: &str) -> (r: HttpClientBuilder)
        ensures
            r@ == (ClientSettings { user_agent: Some(agent@), ..self@ }),
    {
        HttpClientBuilder {
            inner: self.inner.user_agent(agent),
            settings: Ghost(ClientSettings { user_agent: Some(agent@), ..self.settings@ }),
        }
    }

    /// Relies on `reqwest::ClientBuilder::timeout`, which records a total
    /// timeout for every request.
    #[verifier::external_body]
    pub fn timeout(self, timeout: Duration) -> (r: HttpClientBuilder)
        ensures
            r@ == (ClientSettings { timeout: Some(timeout), ..self@ }),
    {
        HttpClientBuilder {
            inner: self.inner.timeout(timeout),
            settings: Ghost(ClientSettings { timeout: Some(timeout), ..self.settings@ }),
        }
    }

    /// Relies on `reqwest::ClientBuilder::build`: the client gets the
    /// configuration recorded in the builder. It returns an error where that
    /// configuration is invalid (an unusable user agent included), or the
    /// TLS backend or the resolver cannot be set up. Its one panic lies on a
    /// rustls path without a crypto provider; this crate enables native TLS
    /// only, which leaves that path out.
    #[verifier::external_body]
    pub fn build(self) -> (r: Result<HttpClient, HttpError>)
        ensures
            r matches Ok(c) ==> c@ == Some(self@),
    {
        match self.inner.build() {
            Ok(inner) => Ok(HttpClient { inner, settings: Ghost(Some(self.settings@)) }),
            Err(e) => Err(e),
        }
    }
}

impl HttpClient {
    /// A client that the caller configured; its settings are not known here.
    pub fn from_client(client: reqwest::Client) -> (r: HttpClient)
        ensures
            r@ is None,
            r.spec_client() == client,
    {
        HttpClient { inner: client, settings: Ghost(None) }
    }

    /// The underlying `reqwest::Client`.
    pub closed spec fn spec_client(&self) -> reqwest::Client {
        self.inner
    }

    /// The underlying `reqwest::Client`.
    pub fn client(&self) -> (r: &reqwest::Client)
        ensures
            *r == self.spec_client(),
    {
        &self.inner
    }
}

} // verus!
