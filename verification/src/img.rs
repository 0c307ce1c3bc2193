//! Image elements and their sources: what to show, and what has to happen
//! before it can be painted.

use std::sync::Arc;
use vstd::prelude::*;
use crate::geometry::{DevicePixels, Size};
use crate::image_data::ImageData;
use crate::keys::{SourceKey, UriOrPath};
use crate::object_fit::ObjectFit;
use crate::codecs::share;
use crate::raster_or_vector::{Loaded, RasterOrVector};
use crate::vector::VectorKey;

verus! {

/// A source of image content.
#[derive(Debug, Clone)]
pub enum ImageSource {
    /// Image content will be loaded from provided URI at render time.
    Uri(String),
    /// Image content will be loaded from the provided file at render time.
    File(String),
    /// Cached image data
    Data(Arc<ImageData>),
}

/// An image element: what it shows and how.
#[derive(Debug, Clone)]
pub struct Img {
    pub source: ImageSource,
    pub grayscale: bool,
    pub object_fit: ObjectFit,
}

impl From<String> for ImageSource {
    fn from(uri: String) -> (r: Self) {
        ImageSource::Uri(uri)
    }
}

impl vstd::std_specs::convert::FromSpecImpl<String> for ImageSource {
    open spec fn obeys_from_spec() -> bool {
        true
    }

    open spec fn from_spec(uri: String) -> Self {
        ImageSource::Uri(uri)
    }
}

impl From<Arc<ImageData>> for ImageSource {
    fn from(data: Arc<ImageData>) -> (r: Self) {
        ImageSource::Data(data)
    }
}

impl vstd::std_specs::convert::FromSpecImpl<Arc<ImageData>> for ImageSource {
    open spec fn obeys_from_spec() -> bool {
        true
    }

    open spec fn from_spec(data: Arc<ImageData>) -> Self {
        ImageSource::Data(data)
    }
}

impl From<UriOrPath> for ImageSource {
    fn from(source: UriOrPath) -> (r: Self) {
        match source {
            UriOrPath::Uri(uri) => ImageSource::Uri(uri),
            UriOrPath::Path(path) => ImageSource::File(path),
        }
    }
}

impl vstd::std_specs::convert::FromSpecImpl<UriOrPath> for ImageSource {
    open spec fn obeys_from_spec() -> bool {
        true
    }

    open spec fn from_spec(source: UriOrPath) -> Self {
        match source {
            UriOrPath::Uri(uri) => ImageSource::Uri(uri),
            UriOrPath::Path(path) => ImageSource::File(path),
        }
    }
}

/// Create a new image element. It shows what `source` converts to, paints in
/// colour and is contained in its bounds.
pub fn img<S: Into<ImageSource>>(source: S) -> (element: Img)
    ensures
        call_ensures(<S as Into<ImageSource>>::into, (source,), element.source),
        !element.grayscale,
        element.object_fit == ObjectFit::Contain,
{
    Img { source: source.into(), grayscale: false, object_fit: ObjectFit::Contain }
}

impl Img {
    /// Set the image to be displayed in grayscale.
    pub fn grayscale(self, grayscale: bool) -> (element: Self)
        ensures
            element.grayscale == grayscale,
            element.source == self.source,
            element.object_fit == self.object_fit,
    {
        Img { source: self.source, grayscale, object_fit: self.object_fit }
    }

    /// Set the object fit for the image.
    pub fn object_fit(self, object_fit: ObjectFit) -> (element: Self)
        ensures
            element.object_fit == object_fit,
            element.source == self.source,
            element.grayscale == self.grayscale,
    {
        Img { source: self.source, grayscale: self.grayscale, object_fit }
    }
}

/// What painting an image needs next.
#[derive(Debug, Clone)]
pub enum ImageLookup {
    /// The pixels are here.
    Ready(Arc<ImageData>),
    /// The image is a vector document: it has to be rendered at this size first.
    Rasterize(VectorKey),
    /// There is nothing to paint: not yet, or not at all.
    Nothing,
}

impl ImageSource {
    /// The source to load, for content that is not here yet.
    pub fn key(&self) -> (key: Option<UriOrPath>)
        ensures
            match *self {
                ImageSource::Uri(uri) => key matches Some(source) && source@ == SourceKey::Uri(uri@),
                ImageSource::File(path) => key matches Some(source) && source@ == SourceKey::Path(
                    path@,
                ),
                ImageSource::Data(_) => key is None,
            },
    {
        match self {
            ImageSource::Uri(uri) => Some(UriOrPath::uri(uri.clone())),
            ImageSource::File(path) => Some(UriOrPath::path(path.clone())),
            ImageSource::Data(_) => None,
        }
    }

    /// What [`ImageSource::data`] returns.
    pub open spec fn lookup(
        self,
        loaded: Option<Loaded>,
        target: Option<Size<DevicePixels>>,
    ) -> ImageLookup {
        match self {
            ImageSource::Data(data) => ImageLookup::Ready(data),
            _ => match loaded {
                Some(Ok(RasterOrVector::Raster(data))) => ImageLookup::Ready(data),
                Some(Ok(RasterOrVector::Vector { data, id })) => match target {
                    Some(size) => ImageLookup::Rasterize(VectorKey { data, id, size }),
                    None => ImageLookup::Nothing,
                },
                _ => ImageLookup::Nothing,
            },
        }
    }

    /// The pixels to paint for this source, or what has to happen before there
    /// are any. `loaded` is what the asset cache has for [`ImageSource::key`],
    /// `target` the size in device pixels of the bounds to paint into, where
    /// they are known. Content that is already decoded is ready whatever the
    /// cache holds. A failed or unfinished load paints nothing. A vector
    /// document is rendered at the target size, and without one paints nothing.
    pub fn data(&self, loaded: Option<&Loaded>, target: Option<Size<DevicePixels>>) -> (lookup:
        ImageLookup)
        ensures
            lookup == self.lookup(
                match loaded {
                    Some(loaded) => Some(*loaded),
                    None => None,
                },
                target,
            ),
    {
        match self {
            ImageSource::Data(data) => ImageLookup::Ready(share(data)),
            _ => match loaded {
                Some(Ok(RasterOrVector::Raster(data))) => ImageLookup::Ready(share(data)),
                Some(Ok(RasterOrVector::Vector { data, id })) => match target {
                    Some(size) => ImageLookup::Rasterize(
                        VectorKey { data: share(data), id: *id, size },
                    ),
                    None => ImageLookup::Nothing,
                },
                _ => ImageLookup::Nothing,
            },
        }
    }
}

} // verus!
