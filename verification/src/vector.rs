//! Vector documents rendered to pixels at a size, through the cache.

use std::sync::Arc;
use vstd::prelude::*;
use crate::asset_cache::{entry_key, Asset, AssetCache};
use crate::codecs::{
    clear_bytes, decoded_raster, encode_png, encoded_png, new_pixmap, pixmap_bytes, pixmap_data,
    pixmap_height, pixmap_size_ok, pixmap_width, share,
};
use crate::error::ImageCacheError;
use crate::geometry::{DevicePixels, Size};
use crate::image_data::{raster_of, ImageData};
use crate::keys::{hash_sized, sized_fingerprint};
use crate::raster_or_vector::{decode_image, well_typed, ImageAsset};

verus! {

/// A vector document and the size to render it at. It is filed under the
/// document's fingerprint and the size; the document itself is not compared.
#[derive(Debug, Clone)]
pub struct VectorKey {
    pub data: Arc<resvg::usvg::Tree>,
    pub id: u64,
    pub size: Size<DevicePixels>,
}

/// The kind of asset that is a vector document rendered at a size.
pub struct Vector;

/// Why a vector document could not be turned into pixels.
#[derive(Debug, Clone)]
pub enum RasterizeError {
    /// The rendered surface could not be encoded.
    Encode,
    /// The encoded surface could not be decoded again.
    Decode(Arc<image::ImageError>),
}

impl Asset for Vector {
    type Source = VectorKey;

    type Output = Arc<ImageData>;

    open spec fn kind() -> u64 {
        2
    }

    open spec fn source_hash(source: &VectorKey) -> u64 {
        sized_fingerprint(source.id, source.size)
    }

    fn kind_tag() -> (k: u64) {
        2
    }

    fn hash_source(source: &VectorKey) -> (h: u64) {
        hash_sized(source.id, &source.size)
    }
}

impl Vector {
    /// The sizes at which a vector document can be rendered: both sides are
    /// positive, and a surface of the size can be allocated.
    pub open spec fn rasterizable(size: Size<DevicePixels>) -> bool {
        &&& size.width.0 > 0
        &&& size.height.0 > 0
        &&& pixmap_size_ok(size.width.0 as u32, size.height.0 as u32)
    }

    /// A clear surface of `size`, as [`Vector::rasterize`] hands it to the
    /// function that draws.
    pub open spec fn clear_surface(surface: resvg::tiny_skia::Pixmap, size: Size<DevicePixels>) -> bool {
        &&& pixmap_width(surface) == size.width.0
        &&& pixmap_height(surface) == size.height.0
        &&& pixmap_bytes(surface) == clear_bytes(size.width.0 as u32, size.height.0 as u32)
    }

    /// Whether a vector document can be rendered at `size`.
    pub fn can_rasterize(size: &Size<DevicePixels>) -> (ok: bool)
        ensures
            ok == Self::rasterizable(*size),
    {
        if size.width.0 <= 0 || size.height.0 <= 0 || size.width.0 > 0x1FFF_FFFF {
            return false;
        }
        let width: u32 = size.width.to_u32();
        let height: u32 = size.height.to_u32();
        assert(0 <= width * height <= 0x1FFF_FFFF * 0xFFFF_FFFF) by (nonlinear_arith)
            requires
                0 <= width <= 0x1FFF_FFFF,
                0 <= height <= 0xFFFF_FFFF,
        ;
        let area: u128 = (width as u128) * (height as u128);
        assert(4 * area == 4 * width * height) by (nonlinear_arith)
            requires
                area == width * height,
        ;
        4 * area <= usize::MAX as u128
    }

    /// What the cache holds for `source`, if it holds pixels of this kind for it.
    pub open spec fn cached<C>(cache: &AssetCache<C, ImageAsset>, source: &VectorKey) -> Option<
        Arc<ImageData>,
    > {
        let key = entry_key::<Vector>(source);
        if cache@.contains_key(key) {
            match cache@[key] {
                ImageAsset::Rendered(data) => Some(data),
                ImageAsset::Loaded(_) => None,
            }
        } else {
            None
        }
    }

    /// Looks `source` up in the cache.
    pub fn probe<C>(cache: &AssetCache<C, ImageAsset>, source: &VectorKey) -> (hit: Option<
        Arc<ImageData>,
    >)
        ensures
            hit == Self::cached(cache, source),
    {
        match cache.get::<Vector>(source) {
            Some(ImageAsset::Rendered(data)) => Some(share(data)),
            _ => None,
        }
    }

    /// How [`Vector::decode_encoded`] relates an encoder's result to the image.
    pub open spec fn image_of_encoded(
        encoded: Option<Seq<u8>>,
        image: Result<Arc<ImageData>, RasterizeError>,
    ) -> bool {
        match encoded {
            None => image matches Err(RasterizeError::Encode),
            Some(file) => match decoded_raster(file) {
                None => image matches Err(RasterizeError::Decode(_)),
                Some((width, height, samples)) => {
                    &&& image matches Ok(data)
                    &&& Some(data@) == raster_of(width, height, samples)
                },
            },
        }
    }

    /// The image that an encoder's result stands for. Without a file the
    /// encoder has failed. A file is decoded as any raster image is decoded;
    /// it gives its pixels, or the decoder's error.
    pub fn decode_encoded(encoded: Option<Vec<u8>>) -> (image: Result<Arc<ImageData>, RasterizeError>)
        ensures
            Self::image_of_encoded(
                match encoded {
                    Some(file) => Some(file@),
                    None => None,
                },
                image,
            ),
    {
        match encoded {
            None => Err(RasterizeError::Encode),
            Some(file) => match decode_image(file.as_slice()) {
                Ok(data) => Ok(data),
                Err(ImageCacheError::Image(error)) => Err(RasterizeError::Decode(error)),
                Err(_) => vstd::pervasive::unreached(),
            },
        }
    }

    /// How [`Vector::normalize`] relates a painted surface to the image it gives.
    /// A surface whose bytes do not come in fours cannot be encoded.
    pub open spec fn normalized(
        painted: resvg::tiny_skia::Pixmap,
        image: Result<Arc<ImageData>, RasterizeError>,
    ) -> bool {
        if pixmap_bytes(painted).len() % 4 == 0 {
            Self::image_of_encoded(
                encoded_png(pixmap_width(painted), pixmap_height(painted), pixmap_bytes(painted)),
                image,
            )
        } else {
            image matches Err(RasterizeError::Encode)
        }
    }

    /// Brings a painted surface to the form of every decoded image, by encoding
    /// it as a PNG file and decoding that file as any raster image is decoded.
    pub fn normalize(painted: &resvg::tiny_skia::Pixmap) -> (image: Result<
        Arc<ImageData>,
        RasterizeError,
    >)
        ensures
            Self::normalized(*painted, image),
    {
        if pixmap_data(painted).len() % 4 == 0 {
            Self::decode_encoded(encode_png(painted))
        } else {
            Err(RasterizeError::Encode)
        }
    }

    /// How [`Vector::rasterize`] relates a document, a size and the function that
    /// draws to the image: the function was handed a clear surface of the size,
    /// and the image is what normalizing the surface that it handed back gives.
    pub open spec fn rasterized<F>(
        source: VectorKey,
        render: F,
        image: Result<Arc<ImageData>, RasterizeError>,
    ) -> bool where
        F: FnOnce(&resvg::usvg::Tree, u32, resvg::tiny_skia::Pixmap) -> resvg::tiny_skia::Pixmap,
    {
        exists|surface: resvg::tiny_skia::Pixmap, painted: resvg::tiny_skia::Pixmap|
            {
                &&& Self::clear_surface(surface, source.size)
                &&& #[trigger] call_ensures(
                    render,
                    (&*source.data, source.size.width.0 as u32, surface),
                    painted,
                )
                &&& Self::normalized(painted, image)
            }
    }

    /// Renders the document of `source` at its size, past the cache. A clear
    /// surface of the size is allocated and handed to `render` with the
    /// document and the target width; `render` draws the document on it,
    /// scaled in both directions by the target width over the document's own.
    /// What it hands back is normalized.
    pub fn rasterize<F>(source: &VectorKey, render: F) -> (image: Result<
        Arc<ImageData>,
        RasterizeError,
    >) where
        F: FnOnce(&resvg::usvg::Tree, u32, resvg::tiny_skia::Pixmap) -> resvg::tiny_skia::Pixmap,

        requires
            Self::rasterizable(source.size),
            forall|surface: resvg::tiny_skia::Pixmap| #[trigger]
                Self::clear_surface(surface, source.size) ==> call_requires(
                    render,
                    (&*source.data, source.size.width.0 as u32, surface),
                ),
        ensures
            Self::rasterized(*source, render, image),
    {
        let width: u32 = source.size.width.to_u32();
        let height: u32 = source.size.height.to_u32();
        let surface = match new_pixmap(width, height) {
            Some(surface) => surface,
            None => vstd::pervasive::unreached(),
        };
        let ghost clear = surface;
        assert(Self::clear_surface(clear, source.size));
        let painted = render(&*source.data, width, surface);
        let image = Self::normalize(&painted);
        assert(call_ensures(render, (&*source.data, width, clear), painted));
        image
    }

    /// Renders the document of `source` at its size. Pixels that are cached for
    /// the document's fingerprint and the size are returned as they are; `render`
    /// is not called, and the size is not looked at. Otherwise the document is
    /// rendered as [`Vector::rasterize`] says, and the image is cached and
    /// returned. A failure is returned and not cached.
    pub fn load<C, F>(cache: &mut AssetCache<C, ImageAsset>, source: VectorKey, render: F) -> (image:
        Result<Arc<ImageData>, RasterizeError>) where
        F: FnOnce(&resvg::usvg::Tree, u32, resvg::tiny_skia::Pixmap) -> resvg::tiny_skia::Pixmap,

        requires
            Self::cached(old(cache), &source) is None ==> {
                &&& Self::rasterizable(source.size)
                &&& forall|surface: resvg::tiny_skia::Pixmap| #[trigger]
                    Self::clear_surface(surface, source.size) ==> call_requires(
                        render,
                        (&*source.data, source.size.width.0 as u32, surface),
                    )
            },
        ensures
            final(cache).client() == old(cache).client(),
            match Self::cached(old(cache), &source) {
                Some(hit) => image == Ok::<Arc<ImageData>, RasterizeError>(hit) && final(cache)@
                    == old(cache)@,
                None => {
                    &&& Self::rasterized(source, render, image)
                    &&& match image {
                        Ok(data) => final(cache)@ == old(cache)@.insert(
                            entry_key::<Vector>(&source),
                            ImageAsset::Rendered(data),
                        ),
                        Err(_) => final(cache)@ == old(cache)@,
                    }
                },
            },
            well_typed(old(cache)@) ==> well_typed(final(cache)@),
    {
        match Self::probe(cache, &source) {
            Some(hit) => Ok(hit),
            None => {
                let image = Self::rasterize(&source, render);
                match &image {
                    Ok(data) => {
                        let filed = share(data);
                        cache.insert::<Vector>(source, ImageAsset::Rendered(filed));
                    },
                    Err(_) => {},
                }
                image
            },
        }
    }

    /// Takes the entry for `source` out of the cache and returns the pixels it held.
    pub fn remove_from_cache<C>(cache: &mut AssetCache<C, ImageAsset>, source: &VectorKey) -> (removed:
        Option<Arc<ImageData>>)
        ensures
            removed == Self::cached(old(cache), source),
            final(cache)@ == old(cache)@.remove(entry_key::<Vector>(source)),
            final(cache).client() == old(cache).client(),
            well_typed(old(cache)@) ==> well_typed(final(cache)@),
    {
        match cache.remove::<Vector>(source) {
            Some(ImageAsset::Rendered(data)) => Some(data),
            _ => None,
        }
    }
}

} // verus!
