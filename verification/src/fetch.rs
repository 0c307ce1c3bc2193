//! What a fetch brings back, and the bytes to decode that it stands for.

use vstd::prelude::*;
use crate::codecs::{lossy_text, utf8_lossy};
use crate::error::ImageCacheError;

verus! {

/// What was fetched for a source.
#[derive(Debug, Clone)]
pub enum Fetched {
    /// The whole content of a file.
    File(Vec<u8>),
    /// The status and the whole body of an HTTP response.
    Response { status: u16, body: Vec<u8> },
}

/// Whether an HTTP status is a success: 200 to 299.
pub open spec fn status_is_success(status: u16) -> bool {
    200 <= status < 300
}

/// Whether an HTTP status is a success.
pub fn is_success(status: u16) -> (success: bool)
    ensures
        success == status_is_success(status),
{
    200 <= status && status < 300
}

/// How [`fetched_bytes`] relates what was fetched to what it returns.
pub open spec fn bytes_of_fetched(
    fetched: Result<Fetched, ImageCacheError>,
    bytes: Result<Vec<u8>, ImageCacheError>,
) -> bool {
    match fetched {
        Err(error) => bytes == Err::<Vec<u8>, ImageCacheError>(error),
        Ok(Fetched::File(content)) => bytes == Ok::<Vec<u8>, ImageCacheError>(content),
        Ok(Fetched::Response { status, body }) => if status_is_success(status) {
            bytes == Ok::<Vec<u8>, ImageCacheError>(body)
        } else {
            &&& bytes matches Err(ImageCacheError::BadStatus { status: reported, body: text })
            &&& reported == status
            &&& text@ == utf8_lossy(body@)
        },
    }
}

/// The bytes to decode, from what was fetched. A failed fetch stays the failure
/// it is. A file gives its content. A response gives its body if its status is a
/// success; any other status is an error that carries the status and the body as
/// text.
pub fn fetched_bytes(fetched: Result<Fetched, ImageCacheError>) -> (bytes: Result<
    Vec<u8>,
    ImageCacheError,
>)
    ensures
        bytes_of_fetched(fetched, bytes),
{
    match fetched {
        Err(error) => Err(error),
        Ok(Fetched::File(content)) => Ok(content),
        Ok(Fetched::Response { status, body }) => {
            if is_success(status) {
                Ok(body)
            } else {
                Err(ImageCacheError::BadStatus { status, body: lossy_text(body.as_slice()) })
            }
        },
    }
}

} // verus!
