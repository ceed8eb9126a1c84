use crate::encoding::{decimal, decimal_of};
use vstd::prelude::*;

verus! {

/// The endpoint that uploads are posted to.
pub const IMGBB_API_URL: &'static str = "https://api.imgbb.com/1/upload";

/// The text of a list of name/value parameters.
pub open spec fn pairs_view(v: Seq<(String, String)>) -> Seq<(Seq<char>, Seq<char>)> {
    v.map_values(|p: (String, String)| (p.0@, p.1@))
}

/// The text of an optional string.
pub open spec fn opt_view(o: Option<String>) -> Option<Seq<char>> {
    match o {
        Some(s) => Some(s@),
        None => None,
    }
}

/// One parameter where a value is given, none otherwise.
pub open spec fn optional_pair(name: Seq<char>, value: Option<Seq<char>>) -> Seq<
    (Seq<char>, Seq<char>),
> {
    match value {
        Some(v) => seq![(name, v)],
        None => Seq::empty(),
    }
}

/// Query parameters of an upload: the API key, then the expiration in
/// seconds where one is set.
pub open spec fn upload_query(api_key: Seq<char>, expiration: Option<u64>) -> Seq<
    (Seq<char>, Seq<char>),
> {
    seq![("key"@, api_key)] + match expiration {
        Some(e) => seq![("expiration"@, decimal_of(e as nat))],
        None => Seq::empty(),
    }
}

/// Form fields of an upload: the base64 image, then name, title and album
/// where they are set.
pub open spec fn upload_form(
    image: Seq<char>,
    name: Option<Seq<char>>,
    title: Option<Seq<char>>,
    album: Option<Seq<char>>,
) -> Seq<(Seq<char>, Seq<char>)> {
    seq![("image"@, image)] + optional_pair("name"@, name) + optional_pair("title"@, title)
        + optional_pair("album"@, album)
}

/// A validated upload, ready to be posted to [`IMGBB_API_URL`].
#[derive(Debug, Clone)]
pub struct UploadRequest {
    /// Query parameters, in order
    pub query: Vec<(String, String)>,
    /// Form-encoded body fields, in order
    pub form: Vec<(String, String)>,
}

/// A delete call: `DELETE` to `url` with `query`.
#[derive(Debug, Clone)]
pub struct DeleteRequest {
    /// The provider-issued delete URL
    pub url: String,
    /// Query parameters, in order
    pub query: Vec<(String, String)>,
}

fn push_pair(v: &mut Vec<(String, String)>, name: &str, value: String)
    ensures
        pairs_view(final(v)@) == pairs_view(old(v)@).push((name@, value@)),
{
    let ghost before = v@;
    v.push((name.to_owned(), value));
    assert(pairs_view(v@) =~= pairs_view(before).push((name@, value@)));
}

fn push_optional(v: &mut Vec<(String, String)>, name: &str, value: &Option<String>)
    ensures
        pairs_view(final(v)@) == pairs_view(old(v)@) + optional_pair(name@, opt_view(*value)),
{
    match value {
        Some(s) => {
            push_pair(v, name, s.clone());
            assert(pairs_view(v@) =~= pairs_view(old(v)@) + optional_pair(name@, opt_view(*value)));
        },
        None => {
            assert(pairs_view(v@) =~= pairs_view(old(v)@) + optional_pair(name@, opt_view(*value)));
        },
    }
}

/// The query parameters of an upload.
pub fn query_params(api_key: &str, expiration: Option<u64>) -> (r: Vec<(String, String)>)
    ensures
        pairs_view(r@) == upload_query(api_key@, expiration),
{
    let mut query: Vec<(String, String)> = Vec::new();
    assert(pairs_view(query@) =~= Seq::empty());
    push_pair(&mut query, "key", api_key.to_owned());
    match expiration {
        Some(e) => {
            push_pair(&mut query, "expiration", decimal(e));
        },
        None => {},
    }
    assert(pairs_view(query@) =~= upload_query(api_key@, expiration));
    query
}

/// The form fields of an upload.
pub fn form_params(
    image: &str,
    name: &Option<String>,
    title: &Option<String>,
    album: &Option<String>,
) -> (r: Vec<(String, String)>)
    ensures
        pairs_view(r@) == upload_form(image@, opt_view(*name), opt_view(*title), opt_view(*album)),
{
    let mut form: Vec<(String, String)> = Vec::new();
    assert(pairs_view(form@) =~= Seq::empty());
    push_pair(&mut form, "image", image.to_owned());
    push_optional(&mut form, "name", name);
    push_optional(&mut form, "title", title);
    push_optional(&mut form, "album", album);
    assert(pairs_view(form@) =~= upload_form(
        image@,
        opt_view(*name),
        opt_view(*title),
        opt_view(*album),
    ));
    form
}

} // verus!
