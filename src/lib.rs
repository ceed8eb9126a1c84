//! Client core for the ImgBB image-hosting service: request building,
//! payload encoding and interpretation of the service's responses.
//!
//! Sending requests is left to the caller: [`UploaderBuilder::request`] and
//! [`ImgBB::delete_request`] say what to send, and
//! [`classifier::classify_upload`] and [`classifier::classify_delete`] turn
//! the HTTP status and body that come back into a result or a typed error.

pub mod classifier;
pub mod client;
pub mod encoding;
pub mod error;
pub mod model;
pub mod request;
pub mod transport;
pub mod uploader;

pub use client::{ImgBB, ImgBBBuilder};
pub use error::Error;
pub use model::{Data, ErrorResponse, Image, Response};
pub use uploader::{Uploader, UploaderBuilder};
