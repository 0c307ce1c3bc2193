//! Rendering a named vector graphic straight to an alpha mask, past the cache.

use std::sync::Arc;
use vstd::prelude::*;
use crate::codecs::{not_a_document, parse_svg, pixmap_bytes, pixmap_data};
use crate::geometry::{DevicePixels, Size};
use crate::keys::RenderSvgParams;

verus! {

/// The size to render a vector graphic at.
#[derive(Debug, Clone, Copy)]
pub enum SvgSize {
    /// Exactly this many device pixels on each side.
    Size(Size<DevicePixels>),
}

/// Why a vector graphic was not rendered.
#[derive(Debug)]
pub enum RenderError<E> {
    /// The target has no pixel: its width or its height is zero.
    ZeroSize,
    /// The asset source has no bytes for the path.
    Load(E),
    /// The bytes are not a vector document.
    Parse(resvg::usvg::Error),
}

impl<E> RenderError<E> {
    /// The words of the one failure that is the renderer's own. A failure of the
    /// source or of the parser comes with words of its own, and has none here.
    pub fn message(&self) -> (words: Option<&'static str>)
        ensures
            match *self {
                RenderError::ZeroSize => words matches Some(text) && text@
                    == "can't render at a zero size"@,
                _ => words is None,
            },
    {
        match self {
            RenderError::ZeroSize => Some("can't render at a zero size"),
            _ => None,
        }
    }
}

/// How [`mask_of_parsed`] relates a parser's result to the mask.
pub open spec fn masked_from<E, F>(
    parsed: Result<resvg::usvg::Tree, resvg::usvg::Error>,
    size: Size<DevicePixels>,
    render_pixmap: F,
    mask: Result<Vec<u8>, RenderError<E>>,
) -> bool where F: FnOnce(&resvg::usvg::Tree, SvgSize) -> resvg::tiny_skia::Pixmap {
    match parsed {
        Err(error) => mask == Err::<Vec<u8>, RenderError<E>>(RenderError::Parse(error)),
        Ok(tree) => exists|surface: resvg::tiny_skia::Pixmap|
            {
                &&& #[trigger] call_ensures(render_pixmap, (&tree, SvgSize::Size(size)), surface)
                &&& mask matches Ok(alpha)
                &&& alpha@ == alpha_channel(pixmap_bytes(surface))
            },
    }
}

/// The mask that a parser's result stands for. A failure to parse is the
/// parser's error. A document is handed to `render_pixmap` with the size, and
/// of the surface that comes back the alpha channel is returned, one byte for
/// each pixel, the colours dropped.
pub fn mask_of_parsed<E, F>(
    parsed: Result<resvg::usvg::Tree, resvg::usvg::Error>,
    size: Size<DevicePixels>,
    render_pixmap: F,
) -> (mask: Result<Vec<u8>, RenderError<E>>) where
    F: FnOnce(&resvg::usvg::Tree, SvgSize) -> resvg::tiny_skia::Pixmap,

    requires
        parsed matches Ok(tree) ==> call_requires(render_pixmap, (&tree, SvgSize::Size(size))),
    ensures
        masked_from(parsed, size, render_pixmap, mask),
{
    match parsed {
        Err(error) => Err(RenderError::Parse(error)),
        Ok(tree) => {
            let surface = render_pixmap(&tree, SvgSize::Size(size));
            let alpha = alpha_mask(pixmap_data(&surface));
            assert(call_ensures(render_pixmap, (&tree, SvgSize::Size(size)), surface));
            Ok(alpha)
        },
    }
}

/// Renders vector graphics that an asset source holds by name. The source is a
/// function from a path to the bytes filed under it.
pub struct SvgRenderer<S> {
    asset_source: S,
    fonts: Arc<resvg::usvg::fontdb::Database>,
}

/// The alpha channel of a surface's bytes: of every four bytes the last.
pub open spec fn alpha_channel(bytes: Seq<u8>) -> Seq<u8> {
    Seq::new((bytes.len() / 4) as nat, |i: int| bytes[4 * i + 3])
}

/// Picks the alpha channel out of a surface's bytes: one byte for each pixel.
pub fn alpha_mask(bytes: &[u8]) -> (mask: Vec<u8>)
    ensures
        mask@ == alpha_channel(bytes@),
{
    let count: usize = bytes.len() / 4;
    let mut mask: Vec<u8> = Vec::with_capacity(count);
    let mut i: usize = 0;
    while i < count
        invariant
            count == bytes@.len() / 4,
            bytes@.len() <= usize::MAX,
            i <= count,
            mask@.len() == i,
            forall|k: int| 0 <= k < i ==> mask@[k] == bytes@[4 * k + 3],
        decreases count - i,
    {
        mask.push(bytes[4 * i + 3]);
        i += 1;
    }
    assert(mask@ =~= alpha_channel(bytes@));
    mask
}

impl<S> SvgRenderer<S> {
    /// A renderer that reads from `asset_source` and lays text out with `fonts`.
    pub fn new(asset_source: S, fonts: Arc<resvg::usvg::fontdb::Database>) -> (renderer: Self)
        ensures
            renderer.asset_source() == asset_source,
            renderer.fonts() == fonts,
    {
        Self { asset_source, fonts }
    }

    /// The source given to [`SvgRenderer::new`].
    pub closed spec fn asset_source(self) -> S {
        self.asset_source
    }

    /// The fonts given to [`SvgRenderer::new`].
    pub closed spec fn fonts(self) -> Arc<resvg::usvg::fontdb::Database> {
        self.fonts
    }

    /// Parses a vector document with the renderer's fonts. Bytes that are [`not_a_document`] fail.
    pub fn tree(&self, bytes: &[u8]) -> (parsed: Result<resvg::usvg::Tree, resvg::usvg::Error>)
        ensures
            not_a_document(bytes@) ==> parsed is Err,
    {
        parse_svg(bytes, &*self.fonts)
    }

    /// How [`SvgRenderer::mask_of_loaded`] relates what the source gave to the
    /// result. Bytes are parsed, and what the parser made of them becomes the
    /// mask as [`mask_of_parsed`] says; bytes that are [`not_a_document`] do
    /// not parse.
    pub open spec fn rendered_from<E, F>(
        loaded: Result<Vec<u8>, E>,
        size: Size<DevicePixels>,
        render_pixmap: F,
        mask: Result<Vec<u8>, RenderError<E>>,
    ) -> bool where F: FnOnce(&resvg::usvg::Tree, SvgSize) -> resvg::tiny_skia::Pixmap {
        match loaded {
            Err(error) => mask == Err::<Vec<u8>, RenderError<E>>(RenderError::Load(error)),
            Ok(bytes) => {
                &&& (not_a_document(bytes@) ==> (mask matches Err(RenderError::Parse(_))))
                &&& exists|parsed: Result<resvg::usvg::Tree, resvg::usvg::Error>| #[trigger]
                    masked_from(parsed, size, render_pixmap, mask)
            },
        }
    }

    /// Renders what the asset source gave. A failure of the source is passed on.
    /// Bytes are parsed with the renderer's fonts, and the parser's result is
    /// rendered as [`mask_of_parsed`] says.
    pub fn mask_of_loaded<E, F>(
        &self,
        loaded: Result<Vec<u8>, E>,
        size: Size<DevicePixels>,
        render_pixmap: F,
    ) -> (mask: Result<Vec<u8>, RenderError<E>>) where
        F: FnOnce(&resvg::usvg::Tree, SvgSize) -> resvg::tiny_skia::Pixmap,

        requires
            loaded is Ok ==> forall|tree: resvg::usvg::Tree|
                call_requires(render_pixmap, (&tree, SvgSize::Size(size))),
        ensures
            Self::rendered_from(loaded, size, render_pixmap, mask),
    {
        match loaded {
            Err(error) => Err(RenderError::Load(error)),
            Ok(bytes) => {
                let parsed = self.tree(bytes.as_slice());
                let ghost seen = parsed;
                let mask = mask_of_parsed(parsed, size, render_pixmap);
                assert(masked_from(seen, size, render_pixmap, mask));
                mask
            },
        }
    }
}

impl<S, E> SvgRenderer<S> where S: Fn(&str) -> Result<Vec<u8>, E> {
    /// Renders the graphic that the asset source holds under `params.path` at
    /// `params.size`, to an alpha mask. A size without a pixel is refused
    /// before anything is asked of the source: the source need not even accept
    /// the path then. At any other size the source is asked once, and what it
    /// gives is rendered as [`SvgRenderer::mask_of_loaded`] says.
    pub fn render<F>(&self, params: &RenderSvgParams, render_pixmap: F) -> (mask: Result<
        Vec<u8>,
        RenderError<E>,
    >) where F: FnOnce(&resvg::usvg::Tree, SvgSize) -> resvg::tiny_skia::Pixmap
        requires
            !params.size.spec_is_zero() ==> {
                &&& forall|path: &str|
                    path@ == params.path@ ==> call_requires(self.asset_source(), (path,))
                &&& forall|tree: resvg::usvg::Tree|
                    call_requires(render_pixmap, (&tree, SvgSize::Size(params.size)))
            },
        ensures
            params.size.spec_is_zero() <==> mask matches Err(RenderError::ZeroSize),
            !params.size.spec_is_zero() ==> exists|path: &str, loaded: Result<Vec<u8>, E>|
                {
                    &&& path@ == params.path@
                    &&& #[trigger] call_ensures(self.asset_source(), (path,), loaded)
                    &&& Self::rendered_from(loaded, params.size, render_pixmap, mask)
                },
    {
        if params.size.is_zero() {
            return Err(RenderError::ZeroSize);
        }
        let path = params.path.as_str();
        assert(call_requires(self.asset_source(), (path,)));
        let loaded = (self.asset_source)(path);
        let ghost given = loaded;
        let mask = self.mask_of_loaded(loaded, params.size, render_pixmap);
        assert(call_ensures(self.asset_source(), (path,), given));
        mask
    }
}

} // verus!
