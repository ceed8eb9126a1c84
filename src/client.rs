use crate::encoding::{base64_of, bytes_of_base64, encodable_len, encode, lemma_base64_round_trip};
use crate::error::Error;
use crate::request::{pairs_view, query_params, upload_query, DeleteRequest};
use crate::transport::{ClientSettings, HttpClient, HttpClientBuilder};
use crate::uploader::{UploadParams, Uploader, UploaderBuilder};
use std::time::Duration;
use vstd::prelude::*;

verus! {

/// The user agent of a client whose builder sets none.
pub const DEFAULT_USER_AGENT: &'static str = "imgbb/0.1.0";

/// What a client holds: its API key and its HTTP client, with the settings
/// that this library built the HTTP client with (`None` for a client that
/// the caller configured).
pub struct ClientConfig {
    pub api_key: Seq<char>,
    pub client: reqwest::Client,
    pub settings: Option<ClientSettings>,
}

/// What a client builder holds.
pub struct BuilderConfig {
    pub api_key: Seq<char>,
    pub timeout: Option<Duration>,
    pub user_agent: Option<Seq<char>>,
    /// A fully configured HTTP client, which takes the place of the options above
    pub client: Option<reqwest::Client>,
}

/// The user agent that a builder gives the client it builds.
pub open spec fn chosen_user_agent(b: BuilderConfig) -> Seq<char> {
    match b.user_agent {
        Some(a) => a,
        None => DEFAULT_USER_AGENT@,
    }
}

/// The settings of the HTTP client that a builder without a client of the
/// caller's own builds: the chosen user agent and the timeout set, if any.
pub open spec fn built_settings(b: BuilderConfig) -> ClientSettings {
    ClientSettings { user_agent: Some(chosen_user_agent(b)), timeout: b.timeout }
}

/// Main client for the ImgBB API: holds the API key, which never changes,
/// and the HTTP client that every request goes through.
pub struct ImgBB {
    client: HttpClient,
    api_key: String,
}

/// Builder for a client with a timeout, a user agent, or an HTTP client of
/// the caller's own.
#[derive(Debug)]
pub struct ImgBBBuilder {
    api_key: String,
    timeout: Option<Duration>,
    user_agent: Option<String>,
    client: Option<reqwest::Client>,
}

impl View for ImgBB {
    type V = ClientConfig;

    closed spec fn view(&self) -> ClientConfig {
        ClientConfig {
            api_key: self.api_key@,
            client: self.client.spec_client(),
            settings: self.client@,
        }
    }
}

impl View for ImgBBBuilder {
    type V = BuilderConfig;

    closed spec fn view(&self) -> BuilderConfig {
        BuilderConfig {
            api_key: self.api_key@,
            timeout: self.timeout,
            user_agent: match self.user_agent {
                Some(a) => Some(a@),
                None => None,
            },
            client: self.client,
        }
    }
}

impl ImgBB {
    /// A client with the given API key and the default HTTP configuration:
    /// the user agent [`DEFAULT_USER_AGENT`] and no timeout. Fails only where
    /// the HTTP client cannot be built.
    pub fn new(api_key: &str) -> (r: Result<ImgBB, Error>)
        ensures
            r matches Ok(c) ==> c@.api_key == api_key@ && c@.settings == Some(
                ClientSettings { user_agent: Some(DEFAULT_USER_AGENT@), timeout: None },
            ),
            r matches Err(e) ==> e is ReqwestError,
    {
        ImgBB::builder(api_key).build()
    }

    /// A builder for a client with custom options.
    pub fn builder(api_key: &str) -> (r: ImgBBBuilder)
        ensures
            r@.api_key == api_key@,
            r@.timeout is None,
            r@.user_agent is None,
            r@.client is None,
    {
        ImgBBBuilder { api_key: api_key.to_owned(), timeout: None, user_agent: None, client: None }
    }

    /// A client with the given API key and HTTP client.
    pub fn new_with_client(api_key: &str, client: reqwest::Client) -> (r: ImgBB)
        ensures
            r@ == (ClientConfig { api_key: api_key@, client, settings: None }),
    {
        ImgBB { client: HttpClient::from_client(client), api_key: api_key.to_owned() }
    }

    /// An uploader for base64 data.
    pub fn read_base64(&self, data: &str) -> (r: Uploader<'_>)
        ensures
            r.api_key@ == self@.api_key,
            r.data matches Some(d) && d@ == data@,
            r.expiration is None,
            *r.client == self@.client,
    {
        Uploader {
            api_key: self.api_key.clone(),
            data: Some(data.to_owned()),
            expiration: None,
            client: self.client.client(),
        }
    }

    /// An uploader for raw bytes, which are encoded as base64.
    pub fn read_bytes(&self, data: &[u8]) -> (r: Uploader<'_>)
        requires
            encodable_len(data@.len()),
        ensures
            r.api_key@ == self@.api_key,
            r.data matches Some(d) && d@ == base64_of(data@) && bytes_of_base64(d@) == data@,
            r.expiration is None,
            *r.client == self@.client,
    {
        proof {
            lemma_base64_round_trip(data@);
        }
        Uploader {
            api_key: self.api_key.clone(),
            data: Some(encode(data)),
            expiration: None,
            client: self.client.client(),
        }
    }

    /// A builder for an upload with custom options, sharing this client's
    /// HTTP connection pool.
    pub fn upload_builder(&self) -> (r: UploaderBuilder)
        ensures
            r@ == (UploadParams {
                api_key: self@.api_key,
                data: None,
                expiration: None,
                name: None,
                title: None,
                album: None,
            }),
    {
        UploaderBuilder::new(self.api_key.clone(), self.client.client().clone())
    }

    /// The HTTP client that requests go through.
    pub fn client(&self) -> (r: &reqwest::Client)
        ensures
            *r == self@.client,
    {
        self.client.client()
    }

    /// The call that deletes an image: its provider-issued delete URL, with
    /// the API key as the one query parameter.
    pub fn delete_request(&self, delete_url: &str) -> (r: DeleteRequest)
        ensures
            r.url@ == delete_url@,
            pairs_view(r.query@) == upload_query(self@.api_key, None),
    {
        DeleteRequest { url: delete_url.to_owned(), query: query_params(self.api_key.as_str(), None) }
    }
}

impl ImgBBBuilder {
    /// Sets a timeout for every request.
    pub fn timeout(self, timeout: Duration) -> (r: ImgBBBuilder)
        ensures
            r@ == (BuilderConfig { timeout: Some(timeout), ..self@ }),
    {
        ImgBBBuilder { timeout: Some(timeout), ..self }
    }

    /// Sets the user agent.
    pub fn user_agent(self, user_agent: &str) -> (r: ImgBBBuilder)
        ensures
            r@ == (BuilderConfig { user_agent: Some(user_agent@), ..self@ }),
    {
        ImgBBBuilder { user_agent: Some(user_agent.to_owned()), ..self }
    }

    /// Sets an HTTP client of the caller's own; the timeout and user agent of
    /// this builder are then not used.
    pub fn client(self, client: reqwest::Client) -> (r: ImgBBBuilder)
        ensures
            r@ == (BuilderConfig { client: Some(client), ..self@ }),
    {
        ImgBBBuilder { client: Some(client), ..self }
    }

    /// The user agent that the built client sends: the one set, or
    /// [`DEFAULT_USER_AGENT`].
    pub fn effective_user_agent(&self) -> (r: &str)
        ensures
            r@ == chosen_user_agent(self@),
    {
        agent_or_default(&self.user_agent)
    }

    /// Builds the client. A client set with [`ImgBBBuilder::client`] is used as
    /// it is, and then building cannot fail; otherwise a new HTTP client gets
    /// the chosen user agent and the timeout, where one is set, and building
    /// fails only where that HTTP client cannot be built.
    pub fn build(self) -> (r: Result<ImgBB, Error>)
        ensures
            r matches Ok(c) ==> c@.api_key == self@.api_key,
            self@.client matches Some(given) ==> (r matches Ok(c) && c@.client == given
                && c@.settings is None),
            self@.client is None ==> (r matches Ok(c) ==> c@.settings == Some(
                built_settings(self@),
            )),
            r matches Err(e) ==> self@.client is None && e is ReqwestError,
    {
        let ImgBBBuilder { api_key, timeout, user_agent, client } = self;
        match client {
            Some(client) => Ok(ImgBB { client: HttpClient::from_client(client), api_key }),
            None => {
                let mut builder = HttpClientBuilder::new().user_agent(
                    agent_or_default(&user_agent),
                );
                match timeout {
                    Some(t) => {
                        builder = builder.timeout(t);
                    },
                    None => {},
                }
                match builder.build() {
                    Ok(client) => Ok(ImgBB { client, api_key }),
                    Err(e) => Err(Error::ReqwestError(e)),
                }
            },
        }
    }
}

fn agent_or_default(user_agent: &Option<String>) -> (r: &str)
    ensures
        r@ == match *user_agent {
            Some(a) => a@,
            None => DEFAULT_USER_AGENT@,
        },
{
    match user_agent {
        Some(a) => a.as_str(),
        None => DEFAULT_USER_AGENT,
    }
}

} // verus!
