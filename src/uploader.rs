use crate::encoding::{base64_of, bytes_of_base64, encodable_len, encode, lemma_base64_round_trip};
use crate::error::Error;
use crate::request::{
    form_params, opt_view, pairs_view, query_params, upload_form, upload_query, UploadRequest,
};
use vstd::prelude::*;

verus! {

/// What an upload builder holds, apart from its HTTP client.
pub struct UploadParams {
    pub api_key: Seq<char>,
    /// The base64 payload, once a source is set
    pub data: Option<Seq<char>>,
    pub expiration: Option<u64>,
    pub name: Option<Seq<char>>,
    pub title: Option<Seq<char>>,
    pub album: Option<Seq<char>>,
}

/// A payload is set and is not empty.
pub open spec fn has_payload(data: Option<Seq<char>>) -> bool {
    match data {
        Some(d) => d.len() > 0,
        None => false,
    }
}

/// The error of an upload that has no payload: the `image` field is missing.
pub open spec fn is_missing_image(e: Error) -> bool {
    match e {
        Error::MissingField(f) => f@ == "image"@,
        _ => false,
    }
}

fn missing_image() -> (e: Error)
    ensures
        is_missing_image(e),
{
    Error::MissingField("image".to_owned())
}

/// A builder for an upload with more options: name, title, album and
/// expiration. Each setter replaces what an earlier call of it set.
#[derive(Clone)]
pub struct UploaderBuilder {
    api_key: String,
    data: Option<String>,
    expiration: Option<u64>,
    name: Option<String>,
    title: Option<String>,
    album: Option<String>,
    client: reqwest::Client,
}

impl View for UploaderBuilder {
    type V = UploadParams;

    closed spec fn view(&self) -> UploadParams {
        UploadParams {
            api_key: self.api_key@,
            data: opt_view(self.data),
            expiration: self.expiration,
            name: opt_view(self.name),
            title: opt_view(self.title),
            album: opt_view(self.album),
        }
    }
}

impl UploaderBuilder {
    /// The HTTP client that the upload goes through.
    pub closed spec fn spec_client(&self) -> reqwest::Client {
        self.client
    }

    /// A builder with no payload and no options.
    pub(crate) fn new(api_key: String, client: reqwest::Client) -> (r: UploaderBuilder)
        ensures
            r@ == (UploadParams {
                api_key: api_key@,
                data: None,
                expiration: None,
                name: None,
                title: None,
                album: None,
            }),
            r.spec_client() == client,
    {
        UploaderBuilder {
            api_key,
            data: None,
            expiration: None,
            name: None,
            title: None,
            album: None,
            client,
        }
    }

    /// The HTTP client that the upload goes through.
    pub fn client(&self) -> (r: &reqwest::Client)
        ensures
            *r == self.spec_client(),
    {
        &self.client
    }

    /// Sets the payload from base64 text.
    pub fn data(self, data: &str) -> (r: UploaderBuilder)
        ensures
            r@ == (UploadParams { data: Some(data@), ..self@ }),
            r.spec_client() == self.spec_client(),
    {
        UploaderBuilder { data: Some(data.to_owned()), ..self }
    }

    /// Sets the payload from raw bytes, which are encoded as base64.
    pub fn bytes(self, data: &[u8]) -> (r: UploaderBuilder)
        requires
            encodable_len(data@.len()),
        ensures
            r@ == (UploadParams { data: Some(base64_of(data@)), ..self@ }),
            bytes_of_base64(r@.data.unwrap()) == data@,
            r.spec_client() == self.spec_client(),
    {
        proof {
            lemma_base64_round_trip(data@);
        }
        UploaderBuilder { data: Some(encode(data)), ..self }
    }

    /// Sets the expiration time in seconds.
    pub fn expiration(self, expiration: u64) -> (r: UploaderBuilder)
        ensures
            r@ == (UploadParams { expiration: Some(expiration), ..self@ }),
            r.spec_client() == self.spec_client(),
    {
        UploaderBuilder { expiration: Some(expiration), ..self }
    }

    /// Sets the image name.
    pub fn name(self, name: &str) -> (r: UploaderBuilder)
        ensures
            r@ == (UploadParams { name: Some(name@), ..self@ }),
            r.spec_client() == self.spec_client(),
    {
        UploaderBuilder { name: Some(name.to_owned()), ..self }
    }

    /// Sets the image title.
    pub fn title(self, title: &str) -> (r: UploaderBuilder)
        ensures
            r@ == (UploadParams { title: Some(title@), ..self@ }),
            r.spec_client() == self.spec_client(),
    {
        UploaderBuilder { title: Some(title.to_owned()), ..self }
    }

    /// Sets the ID of the album to add the image to.
    pub fn album(self, album: &str) -> (r: UploaderBuilder)
        ensures
            r@ == (UploadParams { album: Some(album@), ..self@ }),
            r.spec_client() == self.spec_client(),
    {
        UploaderBuilder { album: Some(album.to_owned()), ..self }
    }

    /// Validates the builder and assembles the upload. Without a payload, or
    /// with an empty one, it fails with the missing-field error, whatever else
    /// is set, and nothing is to be sent.
    pub fn request(&self) -> (r: Result<UploadRequest, Error>)
        ensures
            !has_payload(self@.data) ==> (r matches Err(e) && is_missing_image(e)),
            has_payload(self@.data) ==> (r matches Ok(q) && pairs_view(q.query@)
                == upload_query(self@.api_key, self@.expiration) && pairs_view(q.form@)
                == upload_form(self@.data.unwrap(), self@.name, self@.title, self@.album)),
    {
        match &self.data {
            None => Err(missing_image()),
            Some(image) => {
                if image.as_str().is_empty() {
                    Err(missing_image())
                } else {
                    Ok(
                        UploadRequest {
                            query: query_params(self.api_key.as_str(), self.expiration),
                            form: form_params(image.as_str(), &self.name, &self.title, &self.album),
                        },
                    )
                }
            },
        }
    }
}

/// The base64 payload to be uploaded, with its key, expiration and client.
pub struct Uploader<'a> {
    /// ImgBB API key
    pub api_key: String,
    /// Base64 data to be uploaded
    pub data: Option<String>,
    /// Expiration time in seconds
    pub expiration: Option<u64>,
    /// HTTP client
    pub client: &'a reqwest::Client,
}

impl<'a> Uploader<'a> {
    /// An uploader with the given API key and client, and no data yet.
    pub fn new(api_key: &str, client: &'a reqwest::Client) -> (r: Uploader<'a>)
        ensures
            r.api_key@ == api_key@,
            r.data is None,
            r.expiration is None,
            *r.client == *client,
    {
        Uploader { api_key: api_key.to_owned(), data: None, expiration: None, client }
    }

    /// Sets the expiration time in seconds.
    pub fn expiration(&mut self, expiration: u64) -> (r: &Self)
        ensures
            final(self).expiration == Some(expiration),
            final(self).api_key == old(self).api_key,
            final(self).data == old(self).data,
            final(self).client == old(self).client,
            *r == *final(self),
    {
        self.expiration = Some(expiration);
        self
    }

    /// Validates the uploader and assembles the upload. Without data, or with
    /// empty data, it fails with the missing-field error, and nothing is to be
    /// sent.
    pub fn request(&self) -> (r: Result<UploadRequest, Error>)
        ensures
            !has_payload(opt_view(self.data)) ==> (r matches Err(e) && is_missing_image(e)),
            has_payload(opt_view(self.data)) ==> (r matches Ok(q) && pairs_view(q.query@)
                == upload_query(self.api_key@, self.expiration) && pairs_view(q.form@)
                == upload_form(self.data.unwrap()@, None, None, None)),
    {
        match &self.data {
            None => Err(missing_image()),
            Some(image) => {
                if image.as_str().is_empty() {
                    Err(missing_image())
                } else {
                    Ok(
                        UploadRequest {
                            query: query_params(self.api_key.as_str(), self.expiration),
                            form: form_params(image.as_str(), &None, &None, &None),
                        },
                    )
                }
            },
        }
    }
}

} // verus!
