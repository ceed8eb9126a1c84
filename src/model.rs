use vstd::prelude::*;

verus! {

/// Response from the ImgBB API.
///
/// The API returns a JSON object that holds the upload data together with
/// status and success information. Every field may be absent.
#[derive(Debug, Clone)]
pub struct Response {
    /// The image data, present when the upload succeeded
    pub data: Option<Data>,
    /// Whether the request succeeded
    pub success: Option<bool>,
    /// HTTP status code reported in the body
    pub status: Option<u16>,
    /// Error object, present when the request failed
    pub error: Option<ErrorResponse>,
}

/// Error information returned by the ImgBB API when a request fails.
#[derive(Debug, Clone)]
pub struct ErrorResponse {
    /// Error message
    pub message: Option<String>,
    /// Provider error code
    pub code: Option<u16>,
}

/// Detailed information about an uploaded image.
#[derive(Debug, Clone)]
pub struct Data {
    /// Unique ID of the uploaded image
    pub id: Option<String>,
    /// Title of the image (if provided during upload)
    pub title: Option<String>,
    /// URL to view the image on the ImgBB website
    pub url_viewer: Option<String>,
    /// Direct URL to the image
    pub url: Option<String>,
    /// Display URL (typically used in HTML)
    pub display_url: Option<String>,
    /// Width of the image in pixels
    pub width: Option<u16>,
    /// Height of the image in pixels
    pub height: Option<u16>,
    /// Size of the image in bytes
    pub size: Option<u32>,
    /// Unix timestamp of the upload
    pub time: Option<u64>,
    /// Expiration time in seconds, if set
    pub expiration: Option<u64>,
    /// Full-size image information
    pub image: Option<Image>,
    /// Thumbnail image information
    pub thumb: Option<Image>,
    /// Medium-size image information
    pub medium: Option<Image>,
    /// URL to delete the image
    pub delete_url: Option<String>,
}

/// Information about one variant of an image (original, thumbnail, ...).
#[derive(Debug, Clone)]
pub struct Image {
    /// Original filename
    pub filename: Option<String>,
    /// Name of the image
    pub name: Option<String>,
    /// MIME type (e.g. "image/jpeg")
    pub mime: Option<String>,
    /// File extension (e.g. "jpg")
    pub extension: Option<String>,
    /// Direct URL to this variant
    pub url: Option<String>,
}

/// The response that stands for a body that carried nothing.
pub open spec fn empty_response() -> Response {
    Response { data: None, success: None, status: None, error: None }
}

impl Response {
    /// A response with every field absent.
    pub fn empty() -> (r: Response)
        ensures
            r == empty_response(),
    {
        Response { data: None, success: None, status: None, error: None }
    }
}

} // verus!
