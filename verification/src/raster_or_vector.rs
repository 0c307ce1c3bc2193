//! The asset made from fetched bytes, raster or vector, and the steps of
//! loading it through the cache.

use std::sync::Arc;
use vstd::prelude::*;
use crate::asset_cache::{entry_key, Asset, AssetCache};
use crate::codecs::{
    decode_raster, decoded_raster, not_a_document, parse_svg, raster_format_known, share,
    sniff_raster, utf8_lossy,
};
use crate::error::ImageCacheError;
use crate::fetch::{fetched_bytes, status_is_success, Fetched};
use crate::image_data::{raster_of, ImageData};
use crate::keys::{SourceKey, UriOrPath};
use crate::sharing::serve;
use crate::vector::{Vector, VectorKey};

verus! {

/// An asset made from fetched bytes: pixels, or a vector document that still has
/// to be rendered at a size.
#[derive(Debug, Clone)]
pub enum RasterOrVector {
    Raster(Arc<ImageData>),
    Vector {
        data: Arc<resvg::usvg::Tree>,
        /// The fingerprint of the source that the document was parsed from.
        id: u64,
    },
}

/// What is cached for a source of [`RasterOrVector`]: the asset, or why there is none.
pub type Loaded = Result<RasterOrVector, ImageCacheError>;

/// What the asset cache holds for the two kinds of image asset.
#[derive(Debug)]
pub enum ImageAsset {
    /// An entry of kind [`RasterOrVector`].
    Loaded(Loaded),
    /// An entry of kind [`Vector`].
    Rendered(Arc<ImageData>),
}

/// Whether every entry holds what its kind files: a load's result under
/// [`RasterOrVector`], rendered pixels under [`Vector`]. A cache that only the
/// functions of the two kinds have filled is well typed, and in such a cache a
/// kind always finds its own under its keys.
pub open spec fn well_typed(entries: Map<(u64, u64), ImageAsset>) -> bool {
    forall|key: (u64, u64)| #[trigger]
        entries.contains_key(key) ==> {
            &&& key.0 == RasterOrVector::kind() ==> entries[key] is Loaded
            &&& key.0 == Vector::kind() ==> entries[key] is Rendered
        }
}

/// The image that a decoder's result stands for: the image it decoded, shared,
/// or the error it gave as an [`ImageCacheError::Image`].
pub fn raster_outcome(decoded: Result<ImageData, image::ImageError>) -> (image: Result<
    Arc<ImageData>,
    ImageCacheError,
>)
    ensures
        match decoded {
            Ok(data) => image == Ok::<Arc<ImageData>, ImageCacheError>(Arc::new(data)),
            Err(error) => image == Err::<Arc<ImageData>, ImageCacheError>(
                ImageCacheError::Image(Arc::new(error)),
            ),
        },
{
    match decoded {
        Ok(data) => Ok(Arc::new(data)),
        Err(error) => Err(ImageCacheError::Image(Arc::new(error))),
    }
}

/// How [`decode_image`] relates bytes to the image it returns.
pub open spec fn image_of_bytes(bytes: Seq<u8>, image: Result<Arc<ImageData>, ImageCacheError>) -> bool {
    match decoded_raster(bytes) {
        Some((width, height, samples)) => {
            &&& image matches Ok(data)
            &&& Some(data@) == raster_of(width, height, samples)
        },
        None => image matches Err(ImageCacheError::Image(_)),
    }
}

/// Decodes a raster image, whatever its format and depth, to 8-bit RGBA.
pub fn decode_image(bytes: &[u8]) -> (image: Result<Arc<ImageData>, ImageCacheError>)
    ensures
        image_of_bytes(bytes@, image),
{
    match decode_raster(bytes) {
        Ok((width, height, samples)) => match ImageData::from_rgba8(width, height, samples) {
            Some(data) => raster_outcome(Ok(data)),
            None => vstd::pervasive::unreached(),
        },
        Err(error) => raster_outcome(Err(error)),
    }
}

/// The asset that a parser's result stands for: the document with `id`, or the
/// error as an [`ImageCacheError::Usvg`].
pub fn vector_outcome(parsed: Result<resvg::usvg::Tree, resvg::usvg::Error>, id: u64) -> (asset:
    Loaded)
    ensures
        match parsed {
            Ok(tree) => asset == Ok::<RasterOrVector, ImageCacheError>(
                RasterOrVector::Vector { data: Arc::new(tree), id },
            ),
            Err(error) => asset == Err::<RasterOrVector, ImageCacheError>(
                ImageCacheError::Usvg(Arc::new(error)),
            ),
        },
{
    match parsed {
        Ok(tree) => Ok(RasterOrVector::Vector { data: Arc::new(tree), id }),
        Err(error) => Err(ImageCacheError::Usvg(Arc::new(error))),
    }
}

/// How [`RasterOrVector::decode`] relates bytes and their source to the asset.
/// Bytes that start like a raster format are decoded as one, and fail as one.
/// All others are parsed as a vector document, which takes the source's
/// fingerprint as its identity; those that are [`not_a_document`] do not parse.
pub open spec fn asset_of_bytes(bytes: Seq<u8>, source: SourceKey, asset: Loaded) -> bool {
    if raster_format_known(bytes) {
        match decoded_raster(bytes) {
            Some((width, height, samples)) => {
                &&& asset matches Ok(RasterOrVector::Raster(data))
                &&& Some(data@) == raster_of(width, height, samples)
            },
            None => asset matches Err(ImageCacheError::Image(_)),
        }
    } else if not_a_document(bytes) {
        asset matches Err(ImageCacheError::Usvg(_))
    } else {
        ||| asset matches Ok(RasterOrVector::Vector { id, .. }) && id == source.fingerprint()
        ||| asset matches Err(ImageCacheError::Usvg(_))
    }
}

impl RasterOrVector {
    /// The same asset once more; the pixels or the document stay shared.
    pub fn duplicate(&self) -> (copy: Self)
        ensures
            copy == *self,
    {
        match self {
            RasterOrVector::Raster(data) => RasterOrVector::Raster(share(data)),
            RasterOrVector::Vector { data, id } => RasterOrVector::Vector {
                data: share(data),
                id: *id,
            },
        }
    }

    /// Makes the asset out of fetched bytes: sniffs the format, then decodes a
    /// raster image or parses a vector document.
    pub fn decode(bytes: &[u8], source: &UriOrPath, fonts: &resvg::usvg::fontdb::Database) -> (asset:
        Loaded)
        ensures
            asset_of_bytes(bytes@, source@, asset),
    {
        if sniff_raster(bytes) {
            match decode_image(bytes) {
                Ok(data) => Ok(RasterOrVector::Raster(data)),
                Err(error) => Err(error),
            }
        } else {
            vector_outcome(parse_svg(bytes, fonts), source.fingerprint())
        }
    }

    /// What the cache holds for `source`, if it holds an asset of this kind for it.
    pub open spec fn cached<C>(cache: &AssetCache<C, ImageAsset>, source: &UriOrPath) -> Option<
        Loaded,
    > {
        let key = entry_key::<RasterOrVector>(source);
        if cache@.contains_key(key) {
            match cache@[key] {
                ImageAsset::Loaded(loaded) => Some(loaded),
                ImageAsset::Rendered(_) => None,
            }
        } else {
            None
        }
    }

    /// Looks `source` up in the cache. A hit is the settled result of an earlier
    /// load, success or failure, and no work is needed for it.
    pub fn probe<C>(cache: &AssetCache<C, ImageAsset>, source: &UriOrPath) -> (hit: Option<Loaded>)
        ensures
            hit == Self::cached(cache, source),
    {
        match cache.get::<RasterOrVector>(source) {
            Some(ImageAsset::Loaded(loaded)) => Some(duplicate_loaded(loaded)),
            _ => None,
        }
    }

    /// How [`RasterOrVector::finish_load`] relates what was fetched for `source`
    /// to the result of the load.
    pub open spec fn loaded_from(
        source: SourceKey,
        fetched: Result<Fetched, ImageCacheError>,
        loaded: Loaded,
    ) -> bool {
        match fetched {
            Err(error) => loaded == Err::<RasterOrVector, ImageCacheError>(error),
            Ok(Fetched::Response { status, body }) if !status_is_success(status) => {
                &&& loaded matches Err(ImageCacheError::BadStatus { status: reported, body: text })
                &&& reported == status
                &&& text@ == utf8_lossy(body@)
            },
            Ok(Fetched::Response { status, body }) => asset_of_bytes(body@, source, loaded),
            Ok(Fetched::File(content)) => asset_of_bytes(content@, source, loaded),
        }
    }

    /// The second half of a load, once the bytes are here or the fetch has
    /// failed: decodes, files the result under `source`, success or failure
    /// alike, and returns it.
    pub fn finish_load<C>(
        cache: &mut AssetCache<C, ImageAsset>,
        source: UriOrPath,
        fetched: Result<Fetched, ImageCacheError>,
        fonts: &resvg::usvg::fontdb::Database,
    ) -> (loaded: Loaded)
        ensures
            Self::loaded_from(source@, fetched, loaded),
            final(cache)@ == old(cache)@.insert(
                entry_key::<RasterOrVector>(&source),
                ImageAsset::Loaded(loaded),
            ),
            final(cache).client() == old(cache).client(),
            well_typed(old(cache)@) ==> well_typed(final(cache)@),
    {
        let loaded = match fetched_bytes(fetched) {
            Ok(bytes) => Self::decode(bytes.as_slice(), &source, fonts),
            Err(error) => Err(error),
        };
        let filed = duplicate_loaded(&loaded);
        cache.insert::<RasterOrVector>(source, ImageAsset::Loaded(filed));
        loaded
    }

    /// Loads the asset for `source`. A cached result is returned as it is, and
    /// `fetch` is not called. Otherwise `fetch` is called once, and what comes
    /// of its bytes is cached and returned.
    pub fn load<C, F>(
        cache: &mut AssetCache<C, ImageAsset>,
        source: UriOrPath,
        fetch: F,
        fonts: &resvg::usvg::fontdb::Database,
    ) -> (loaded: Loaded) where F: FnOnce(&UriOrPath) -> Result<Fetched, ImageCacheError>
        requires
            Self::cached(old(cache), &source) is None ==> call_requires(fetch, (&source,)),
        ensures
            final(cache).client() == old(cache).client(),
            match Self::cached(old(cache), &source) {
                Some(hit) => loaded == hit && final(cache)@ == old(cache)@,
                None => {
                    &&& exists|fetched: Result<Fetched, ImageCacheError>|
                        {
                            &&& call_ensures(fetch, (&source,), fetched)
                            &&& #[trigger] Self::loaded_from(source@, fetched, loaded)
                        }
                    &&& final(cache)@ == old(cache)@.insert(
                        entry_key::<RasterOrVector>(&source),
                        ImageAsset::Loaded(loaded),
                    )
                },
            },
            well_typed(old(cache)@) ==> well_typed(final(cache)@),
            well_typed(old(cache)@) ==> serve(
                old(cache)@,
                entry_key::<RasterOrVector>(&source),
                ImageAsset::Loaded(loaded),
            ) == (
                final(cache)@,
                ImageAsset::Loaded(loaded),
                Self::cached(old(cache), &source) is None,
            ),
    {
        match Self::probe(cache, &source) {
            Some(hit) => hit,
            None => {
                let fetched = fetch(&source);
                let ghost seen = fetched;
                let loaded = Self::finish_load(cache, source, fetched, fonts);
                assert(Self::loaded_from(source@, seen, loaded));
                loaded
            },
        }
    }

    /// Takes the entry for `source` out of the cache and returns the result it
    /// held, so that the next load fetches again.
    pub fn remove_from_cache<C>(cache: &mut AssetCache<C, ImageAsset>, source: &UriOrPath) -> (removed:
        Option<Loaded>)
        ensures
            removed == Self::cached(old(cache), source),
            final(cache)@ == old(cache)@.remove(entry_key::<RasterOrVector>(source)),
            final(cache).client() == old(cache).client(),
            well_typed(old(cache)@) ==> well_typed(final(cache)@),
    {
        match cache.remove::<RasterOrVector>(source) {
            Some(ImageAsset::Loaded(loaded)) => Some(loaded),
            _ => None,
        }
    }
}

/// An empty cache is well typed, and in a well typed cache a source misses only
/// where nothing is filed under its key.
pub proof fn lemma_well_typed_cache_finds_its_own<C>(
    cache: AssetCache<C, ImageAsset>,
    source: UriOrPath,
)
    ensures
        well_typed(Map::<(u64, u64), ImageAsset>::empty()),
        well_typed(cache@) ==> (RasterOrVector::cached(&cache, &source) is None <==> !cache@.contains_key(
            entry_key::<RasterOrVector>(&source),
        )),
{
}

/// Whether bytes leave nothing to the parser of vector documents: they start
/// like a raster image, or they are no document at all.
pub open spec fn settled_bytes(bytes: Seq<u8>) -> bool {
    raster_format_known(bytes) || not_a_document(bytes)
}

/// Whether what was fetched leaves the result of a load to this library and
/// the raster decoder alone: the fetch failed, the status is no success, or the
/// bytes leave nothing to the parser of vector documents.
pub open spec fn settles_outcome(fetched: Result<Fetched, ImageCacheError>) -> bool {
    match fetched {
        Err(_) => true,
        Ok(Fetched::Response { status, body }) => !status_is_success(status) || settled_bytes(
            body@,
        ),
        Ok(Fetched::File(content)) => settled_bytes(content@),
    }
}

/// Whether two results of loads are the same answer: the same pixels, vector
/// documents of the same identity, the same status with the same body, a
/// failure of the same decoder both times, or one and the same failure of the
/// fetch.
pub open spec fn same_outcome(first: Loaded, second: Loaded) -> bool {
    match (first, second) {
        (Ok(RasterOrVector::Raster(a)), Ok(RasterOrVector::Raster(b))) => a@ == b@,
        (
            Ok(RasterOrVector::Vector { id: a, .. }),
            Ok(RasterOrVector::Vector { id: b, .. }),
        ) => a == b,
        (
            Err(ImageCacheError::BadStatus { status: a, body: x }),
            Err(ImageCacheError::BadStatus { status: b, body: y }),
        ) => a == b && x@ == y@,
        (Err(ImageCacheError::Image(_)), Err(ImageCacheError::Image(_))) => true,
        (Err(ImageCacheError::Usvg(_)), Err(ImageCacheError::Usvg(_))) => true,
        (Err(a), Err(b)) => a == b,
        _ => false,
    }
}

/// Two loads that missed the cache at the same time and fetched the same come
/// to the same answer, so it does not matter whose result stays in the cache.
/// This holds wherever the fetch settles the outcome; of two parses of one
/// vector document nothing is known.
pub proof fn lemma_racing_loads_agree(
    source: SourceKey,
    fetched: Result<Fetched, ImageCacheError>,
    first: Loaded,
    second: Loaded,
)
    requires
        settles_outcome(fetched),
        RasterOrVector::loaded_from(source, fetched, first),
        RasterOrVector::loaded_from(source, fetched, second),
    ensures
        same_outcome(first, second),
{
}

/// However many loads miss the cache at the same time and fetch the same, any
/// two of them come to the same answer, wherever the fetch settles the outcome.
pub proof fn lemma_all_racing_loads_agree(
    source: SourceKey,
    fetched: Result<Fetched, ImageCacheError>,
    loaded: Seq<Loaded>,
)
    requires
        settles_outcome(fetched),
        forall|i: int|
            0 <= i < loaded.len() ==> RasterOrVector::loaded_from(source, fetched, #[trigger] loaded[i]),
    ensures
        forall|i: int, j: int|
            0 <= i < loaded.len() && 0 <= j < loaded.len() ==> same_outcome(
                #[trigger] loaded[i],
                #[trigger] loaded[j],
            ),
{
    assert forall|i: int, j: int| 0 <= i < loaded.len() && 0 <= j < loaded.len() implies same_outcome(
        #[trigger] loaded[i],
        #[trigger] loaded[j],
    ) by {
        lemma_racing_loads_agree(source, fetched, loaded[i], loaded[j]);
    }
}

/// Where the outcome is the parser's, two loads that fetched the same can
/// differ in one thing only: whether the document parsed. Two that both
/// succeed, or both fail, come to the same answer.
pub proof fn lemma_racing_loads_differ_only_in_parsing(
    source: SourceKey,
    fetched: Result<Fetched, ImageCacheError>,
    first: Loaded,
    second: Loaded,
)
    requires
        RasterOrVector::loaded_from(source, fetched, first),
        RasterOrVector::loaded_from(source, fetched, second),
    ensures
        (first is Ok <==> second is Ok) ==> same_outcome(first, second),
        !same_outcome(first, second) ==> {
            ||| first matches Ok(RasterOrVector::Vector { .. }) && second matches Err(
                ImageCacheError::Usvg(_),
            )
            ||| first matches Err(ImageCacheError::Usvg(_)) && second matches Ok(
                RasterOrVector::Vector { .. },
            )
        },
{
}

/// Once a load for a source has finished, a probe for the source finds its
/// result, so that a later load for it does no work and gives the same result.
pub proof fn lemma_finished_load_is_found<C>(
    before: AssetCache<C, ImageAsset>,
    after: AssetCache<C, ImageAsset>,
    source: UriOrPath,
    loaded: Loaded,
)
    requires
        after@ == before@.insert(entry_key::<RasterOrVector>(&source), ImageAsset::Loaded(loaded)),
    ensures
        RasterOrVector::cached(&after, &source) == Some(loaded),
{
}

/// Once a source has been removed, a probe for it finds nothing, whatever the
/// cache held for it.
pub proof fn lemma_removed_source_is_not_found<C>(
    before: AssetCache<C, ImageAsset>,
    after: AssetCache<C, ImageAsset>,
    source: UriOrPath,
)
    requires
        after@ == before@.remove(entry_key::<RasterOrVector>(&source)),
    ensures
        RasterOrVector::cached(&after, &source) is None,
{
}

/// Rendered pixels and loaded assets do not stand in each other's way: filing
/// or removing pixels for any document and size changes what is cached for no
/// source, and filing or removing the asset of any source changes what is
/// cached for no document.
pub proof fn lemma_image_kinds_are_isolated<C>(
    before: AssetCache<C, ImageAsset>,
    after: AssetCache<C, ImageAsset>,
    source: UriOrPath,
    document: VectorKey,
    value: ImageAsset,
)
    ensures
        after@ == before@.insert(entry_key::<Vector>(&document), value)
            ==> RasterOrVector::cached(&after, &source) == RasterOrVector::cached(&before, &source),
        after@ == before@.remove(entry_key::<Vector>(&document)) ==> RasterOrVector::cached(
            &after,
            &source,
        ) == RasterOrVector::cached(&before, &source),
        after@ == before@.insert(entry_key::<RasterOrVector>(&source), value) ==> Vector::cached(
            &after,
            &document,
        ) == Vector::cached(&before, &document),
        after@ == before@.remove(entry_key::<RasterOrVector>(&source)) ==> Vector::cached(
            &after,
            &document,
        ) == Vector::cached(&before, &document),
{
}

/// A copy of a cached result.
pub fn duplicate_loaded(loaded: &Loaded) -> (copy: Loaded)
    ensures
        copy == *loaded,
{
    match loaded {
        Ok(asset) => Ok(asset.duplicate()),
        Err(error) => Err(error.duplicate()),
    }
}

impl Asset for RasterOrVector {
    type Source = UriOrPath;

    type Output = Loaded;

    open spec fn kind() -> u64 {
        1
    }

    open spec fn source_hash(source: &UriOrPath) -> u64 {
        source@.fingerprint()
    }

    fn kind_tag() -> (k: u64) {
        1
    }

    fn hash_source(source: &UriOrPath) -> (h: u64) {
        source.fingerprint()
    }
}

} // verus!
