//! The ways in which fetching and decoding an image fail.

use std::sync::Arc;
use vstd::prelude::*;
use crate::codecs::share;

verus! {

/// An error that can occur when interacting with the image cache. Every part of
/// it is shared or plain, so a cached failure can be handed out again.
#[derive(Debug, Clone)]
pub enum ImageCacheError {
    /// An error that occurred while fetching an image from a remote source, as
    /// the client described it.
    Client(String),
    /// An error that occurred while reading the image from disk.
    Io(Arc<std::io::Error>),
    /// The remote source answered with a status that is not a success.
    BadStatus {
        /// The HTTP status code.
        status: u16,
        /// The HTTP response body, as text.
        body: String,
    },
    /// An error that occurred while decoding a raster image.
    Image(Arc<image::ImageError>),
    /// An error that occurred while parsing a vector document.
    Usvg(Arc<resvg::usvg::Error>),
}

impl ImageCacheError {
    /// The same error once more; what it shares stays shared.
    pub fn duplicate(&self) -> (copy: Self)
        ensures
            copy == *self,
    {
        match self {
            ImageCacheError::Client(message) => ImageCacheError::Client(message.clone()),
            ImageCacheError::Io(error) => ImageCacheError::Io(share(error)),
            ImageCacheError::BadStatus { status, body } => ImageCacheError::BadStatus {
                status: *status,
                body: body.clone(),
            },
            ImageCacheError::Image(error) => ImageCacheError::Image(share(error)),
            ImageCacheError::Usvg(error) => ImageCacheError::Usvg(share(error)),
        }
    }
}

impl From<std::io::Error> for ImageCacheError {
    fn from(error: std::io::Error) -> (r: Self) {
        ImageCacheError::Io(Arc::new(error))
    }
}

impl vstd::std_specs::convert::FromSpecImpl<std::io::Error> for ImageCacheError {
    open spec fn obeys_from_spec() -> bool {
        true
    }

    open spec fn from_spec(error: std::io::Error) -> Self {
        ImageCacheError::Io(Arc::new(error))
    }
}

impl From<image::ImageError> for ImageCacheError {
    fn from(error: image::ImageError) -> (r: Self) {
        ImageCacheError::Image(Arc::new(error))
    }
}

impl vstd::std_specs::convert::FromSpecImpl<image::ImageError> for ImageCacheError {
    open spec fn obeys_from_spec() -> bool {
        true
    }

    open spec fn from_spec(error: image::ImageError) -> Self {
        ImageCacheError::Image(Arc::new(error))
    }
}

impl From<resvg::usvg::Error> for ImageCacheError {
    fn from(error: resvg::usvg::Error) -> (r: Self) {
        ImageCacheError::Usvg(Arc::new(error))
    }
}

impl vstd::std_specs::convert::FromSpecImpl<resvg::usvg::Error> for ImageCacheError {
    open spec fn obeys_from_spec() -> bool {
        true
    }

    open spec fn from_spec(error: resvg::usvg::Error) -> Self {
        ImageCacheError::Usvg(Arc::new(error))
    }
}

} // verus!
