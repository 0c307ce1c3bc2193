//! What this library has from the codecs it is built on: raster decoding from
//! `image`, vector parsing from `usvg`, pixel surfaces from `tiny_skia`.
//!
//! Nothing in this file is proved. Each function states what the library relies
//! on from the call it makes; the types are carried through unopened.

use std::sync::Arc;
use vstd::prelude::*;
use vstd::utf8::valid_utf8;

verus! {

/// `image::ImageError`: why a raster image could not be decoded.
#[verifier::external_type_specification]
#[verifier::external_body]
pub struct ExImageError(image::ImageError);

/// `usvg::Error`: why a vector document could not be parsed.
#[verifier::external_type_specification]
#[verifier::external_body]
pub struct ExUsvgError(resvg::usvg::Error);

/// `usvg::Tree`: a parsed vector document.
#[verifier::external_type_specification]
#[verifier::external_body]
pub struct ExTree(resvg::usvg::Tree);

/// `fontdb::Database`: the fonts that text in a vector document is laid out with.
#[verifier::external_type_specification]
#[verifier::external_body]
pub struct ExFontDatabase(resvg::usvg::fontdb::Database);

/// `tiny_skia::Pixmap`: a surface of premultiplied RGBA pixels.
#[verifier::external_type_specification]
#[verifier::external_body]
pub struct ExPixmap(resvg::tiny_skia::Pixmap);

/// `std::io::Error`: why a file could not be read.
#[verifier::external_type_specification]
#[verifier::external_body]
pub struct ExIoError(std::io::Error);

/// Whether `image::guess_format` recognises the start of `bytes` as that of a
/// raster format.
pub uninterp spec fn raster_format_known(bytes: Seq<u8>) -> bool;

/// What `image::load_from_memory` followed by `DynamicImage::into_rgba8` makes of
/// `bytes`: the width, the height and the samples of the image, or nothing where
/// the bytes do not decode. The decoders compute in whole numbers and go by the
/// bytes alone; the JPEG decoder is built with its portable arithmetic, which
/// gives the same samples on every CPU.
pub uninterp spec fn decoded_raster(bytes: Seq<u8>) -> Option<(u32, u32, Seq<u8>)>;

/// The text that `String::from_utf8_lossy` makes of `bytes`.
pub uninterp spec fn utf8_lossy(bytes: Seq<u8>) -> Seq<char>;

/// The bytes that a `tiny_skia::Pixmap` holds, all of them: four for each pixel,
/// the alpha last, row after row, and then whatever else the buffer held that
/// the surface was made of.
pub uninterp spec fn pixmap_bytes(pixmap: resvg::tiny_skia::Pixmap) -> Seq<u8>;

/// The width of a `tiny_skia::Pixmap` in pixels.
pub uninterp spec fn pixmap_width(pixmap: resvg::tiny_skia::Pixmap) -> u32;

/// The height of a `tiny_skia::Pixmap` in pixels.
pub uninterp spec fn pixmap_height(pixmap: resvg::tiny_skia::Pixmap) -> u32;

/// The PNG file that `tiny_skia::Pixmap::encode_png` writes for a surface of the
/// given sides and bytes, or nothing where the encoder fails.
pub uninterp spec fn encoded_png(width: u32, height: u32, bytes: Seq<u8>) -> Option<Seq<u8>>;

/// The bytes of a clear surface: four zeros for each pixel.
pub open spec fn clear_bytes(width: u32, height: u32) -> Seq<u8> {
    Seq::new((4 * width * height) as nat, |i: int| 0u8)
}

/// The sizes at which `tiny_skia::Pixmap::new` allocates a surface: neither side
/// is zero, a row of four bytes per pixel fits a signed 32-bit count, and the whole
/// fits the address space.
pub open spec fn pixmap_size_ok(width: u32, height: u32) -> bool {
    &&& 0 < width <= 0x1FFF_FFFF
    &&& 0 < height
    &&& 4 * width * height <= usize::MAX
}

/// Calls `image::guess_format` and tells whether it named a format. It goes by
/// the first bytes alone, and says nothing of whether the rest decodes.
#[verifier::external_body]
pub(crate) fn sniff_raster(bytes: &[u8]) -> (known: bool)
    ensures
        known == raster_format_known(bytes@),
{
    image::guess_format(bytes).is_ok()
}

/// Calls `image::load_from_memory`, which decodes in the format that the first
/// bytes announce, and `DynamicImage::into_rgba8` on what it returns. Hands out
/// the width, the height and the buffer of 8-bit RGBA samples. The buffer holds
/// at least four samples for each pixel; that much `ImageBuffer` keeps of every
/// buffer it is made of.
#[verifier::external_body]
pub(crate) fn decode_raster(bytes: &[u8]) -> (decoded: Result<
    (u32, u32, Vec<u8>),
    image::ImageError,
>)
    ensures
        match decoded {
            Ok((width, height, samples)) => {
                &&& decoded_raster(bytes@) == Some((width, height, samples@))
                &&& 4 * width * height <= samples@.len()
            },
            Err(_) => decoded_raster(bytes@) is None,
        },
{
    let rgba = image::load_from_memory(bytes)?.into_rgba8();
    Ok((rgba.width(), rgba.height(), rgba.into_raw()))
}

/// Whether `bytes` start with the two bytes that mark gzip data.
pub open spec fn gzip_marked(bytes: Seq<u8>) -> bool {
    bytes.len() >= 2 && bytes[0] == 0x1f && bytes[1] == 0x8b
}

/// The data that `usvg::Tree::from_data` refuses without parsing it: a
/// document is UTF-8 text, as it stands or compressed with gzip, and these
/// bytes are neither text nor marked as gzip data.
pub open spec fn not_a_document(bytes: Seq<u8>) -> bool {
    !gzip_marked(bytes) && !valid_utf8(bytes)
}

/// Calls `usvg::Tree::from_data` with the default options and the given fonts.
/// It reads data that is not marked as gzip data as UTF-8 text and fails where
/// that is not what it is. Of text, and of gzip data, nothing is claimed: what
/// comes of them depends on the fonts, and on the files that the document
/// refers to.
#[verifier::external_body]
pub(crate) fn parse_svg(bytes: &[u8], fonts: &resvg::usvg::fontdb::Database) -> (parsed: Result<
    resvg::usvg::Tree,
    resvg::usvg::Error,
>)
    ensures
        not_a_document(bytes@) ==> parsed is Err,
{
    resvg::usvg::Tree::from_data(bytes, &resvg::usvg::Options::default(), fonts)
}

/// Calls `tiny_skia::Pixmap::new`, which allocates a surface of the sides asked
/// for exactly at the sizes of [`pixmap_size_ok`], and returns nothing at any
/// other. The surface is clear: every byte of it is zero.
#[verifier::external_body]
pub(crate) fn new_pixmap(width: u32, height: u32) -> (pixmap: Option<resvg::tiny_skia::Pixmap>)
    ensures
        pixmap is Some <==> pixmap_size_ok(width, height),
        pixmap matches Some(surface) ==> {
            &&& pixmap_width(surface) == width
            &&& pixmap_height(surface) == height
            &&& pixmap_bytes(surface) == clear_bytes(width, height)
        },
{
    resvg::tiny_skia::Pixmap::new(width, height)
}

/// Calls `tiny_skia::Pixmap::encode_png` and drops the encoder's error. The file
/// is made from the surface's sides and bytes and nothing else. The encoder
/// reads the bytes four at a time and panics on a buffer that does not divide
/// so, which is why such a surface is not admitted.
#[verifier::external_body]
pub(crate) fn encode_png(pixmap: &resvg::tiny_skia::Pixmap) -> (png: Option<Vec<u8>>)
    requires
        pixmap_bytes(*pixmap).len() % 4 == 0,
    ensures
        match png {
            Some(file) => encoded_png(
                pixmap_width(*pixmap),
                pixmap_height(*pixmap),
                pixmap_bytes(*pixmap),
            ) == Some(file@),
            None => encoded_png(
                pixmap_width(*pixmap),
                pixmap_height(*pixmap),
                pixmap_bytes(*pixmap),
            ) is None,
        },
{
    pixmap.encode_png().ok()
}

/// Calls `tiny_skia::Pixmap::data`, which lends the bytes of the surface.
#[verifier::external_body]
pub(crate) fn pixmap_data(pixmap: &resvg::tiny_skia::Pixmap) -> (data: &[u8])
    ensures
        data@ == pixmap_bytes(*pixmap),
{
    pixmap.data()
}

/// Calls `String::from_utf8_lossy` and takes the text it returns.
#[verifier::external_body]
pub(crate) fn lossy_text(bytes: &[u8]) -> (text: String)
    ensures
        text@ == utf8_lossy(bytes@),
{
    String::from_utf8_lossy(bytes).into_owned()
}

/// Calls `Arc::clone`: one more handle to the same value.
#[verifier::external_body]
pub(crate) fn share<T>(value: &Arc<T>) -> (shared: Arc<T>)
    ensures
        shared == *value,
{
    Arc::clone(value)
}

} // verus!
