//! A cache of image fetches, one task for each source.
//!
//! The cache keeps the handle of the task that fetches and decodes a source,
//! from the first request on. Every later request for the source gets a clone
//! of that handle, so the work is done once however many ask. A handle is
//! found by the fingerprint of its source, among the few sources that share the
//! fingerprint; there the sources are compared as they are, so that two
//! sources never share a task.

use std::collections::HashMap;
use std::sync::Arc;
use vstd::prelude::*;
use crate::codecs::utf8_lossy;
use crate::error::ImageCacheError;
use crate::fetch::{fetched_bytes, status_is_success, Fetched};
use crate::image_data::ImageData;
use crate::keys::{SourceKey, UriOrPath};
use crate::raster_or_vector::{decode_image, image_of_bytes};
use crate::sharing::serve;

verus! {

/// The handles of the tasks that fetch images, by source, and the client that
/// the tasks fetch through.
pub struct ImageCache<C, T> {
    client: C,
    images: HashMap<u64, Vec<(UriOrPath, T)>>,
}

impl<C, T> View for ImageCache<C, T> {
    type V = Map<SourceKey, T>;

    /// The handles on file, by source.
    closed spec fn view(&self) -> Map<SourceKey, T> {
        shelved(self.images@)
    }
}

spec fn bucket<T>(images: Map<u64, Vec<(UriOrPath, T)>>, fingerprint: u64) -> Seq<(UriOrPath, T)> {
    if images.contains_key(fingerprint) {
        images[fingerprint]@
    } else {
        Seq::empty()
    }
}

spec fn shelved<T>(images: Map<u64, Vec<(UriOrPath, T)>>) -> Map<SourceKey, T> {
    Map::new(
        |key: SourceKey| filed(bucket(images, key.fingerprint())).contains_key(key),
        |key: SourceKey| filed(bucket(images, key.fingerprint()))[key],
    )
}

spec fn holds<T>(images: Seq<(UriOrPath, T)>, key: SourceKey, i: int) -> bool {
    0 <= i < images.len() && images[i].0@ == key
}

spec fn filed<T>(images: Seq<(UriOrPath, T)>) -> Map<SourceKey, T> {
    Map::new(
        |key: SourceKey| exists|i: int| holds(images, key, i),
        |key: SourceKey| images[choose|i: int| holds(images, key, i)].1,
    )
}

spec fn distinct<T>(images: Seq<(UriOrPath, T)>) -> bool {
    forall|i: int, j: int|
        0 <= i < images.len() && 0 <= j < images.len() && #[trigger] images[i].0@
            == #[trigger] images[j].0@ ==> i == j
}

proof fn lemma_filed_at<T>(images: Seq<(UriOrPath, T)>, i: int)
    requires
        distinct(images),
        0 <= i < images.len(),
    ensures
        filed(images).contains_key(images[i].0@),
        filed(images)[images[i].0@] == images[i].1,
{
    let key = images[i].0@;
    assert(holds(images, key, i));
    let chosen = choose|k: int| holds(images, key, k);
    assert(holds(images, key, chosen));
}

proof fn lemma_filed_push<T>(images: Seq<(UriOrPath, T)>, key: UriOrPath, handle: T)
    requires
        distinct(images),
        !filed(images).contains_key(key@),
    ensures
        distinct(images.push((key, handle))),
        filed(images.push((key, handle))) == filed(images).insert(key@, handle),
{
    let longer = images.push((key, handle));
    assert forall|i: int| 0 <= i < images.len() implies images[i].0@ != key@ by {
        if images[i].0@ == key@ {
            assert(holds(images, key@, i));
        }
    }
    assert(distinct(longer));
    assert forall|k: SourceKey| #[trigger]
        filed(longer).contains_key(k) == filed(images).insert(key@, handle).contains_key(k) by {
        if filed(longer).contains_key(k) {
            let i = choose|i: int| holds(longer, k, i);
            if i < images.len() {
                assert(holds(images, k, i));
            }
        }
        if filed(images).contains_key(k) {
            let i = choose|i: int| holds(images, k, i);
            assert(holds(longer, k, i));
        }
        if k == key@ {
            assert(holds(longer, k, images.len() as int));
        }
    }
    assert forall|k: SourceKey| filed(longer).contains_key(k) implies #[trigger] filed(longer)[k]
        == filed(images).insert(key@, handle)[k] by {
        let i = choose|i: int| holds(longer, k, i);
        lemma_filed_at(longer, i);
        if i < images.len() {
            lemma_filed_at(images, i);
        }
    }
    assert(filed(longer) =~= filed(images).insert(key@, handle));
}

impl<C, T> ImageCache<C, T> {
    /// No source is on file twice. Every cache that [`ImageCache::new`] made and
    /// that only the methods of this type have changed is well formed.
    pub closed spec fn well_formed(&self) -> bool {
        forall|fingerprint: u64| distinct(#[trigger] bucket(self.images@, fingerprint))
    }

    /// A cache without any handle, whose tasks fetch through `client`.
    pub fn new(client: C) -> (cache: Self)
        ensures
            cache.well_formed(),
            cache@ == Map::<SourceKey, T>::empty(),
            *cache.client() == client,
    {
        let cache = ImageCache { client, images: HashMap::new() };
        assert(cache@ =~= Map::<SourceKey, T>::empty());
        cache
    }

    /// The client given to [`ImageCache::new`].
    pub closed spec fn spec_client(&self) -> &C {
        &self.client
    }

    /// The client that the tasks fetch through.
    #[verifier::when_used_as_spec(spec_client)]
    pub fn client(&self) -> (client: &C)
        ensures
            client == self.spec_client(),
    {
        &self.client
    }

    /// The handle on file for `key`, if there is one. Nothing is started.
    pub fn lookup(&self, key: &UriOrPath) -> (found: Option<&T>)
        requires
            self.well_formed(),
        ensures
            match found {
                Some(handle) => self@.contains_key(key@) && *handle == self@[key@],
                None => !self@.contains_key(key@),
            },
    {
        let fingerprint = key.fingerprint();
        assert(distinct(bucket(self.images@, fingerprint)));
        match self.images.get(&fingerprint) {
            None => None,
            Some(sources) => {
                let mut i: usize = 0;
                while i < sources.len()
                    invariant
                        i <= sources@.len(),
                        distinct(sources@),
                        sources@ == bucket(self.images@, key@.fingerprint()),
                        forall|k: int| 0 <= k < i ==> sources@[k].0@ != key@,
                    decreases sources@.len() - i,
                {
                    if sources[i].0 == *key {
                        proof {
                            lemma_filed_at(sources@, i as int);
                        }
                        return Some(&sources[i].1);
                    }
                    i += 1;
                }
                proof {
                    if filed(sources@).contains_key(key@) {
                        let k = choose|k: int| holds(sources@, key@, k);
                        assert(holds(sources@, key@, k));
                    }
                }
                None
            },
        }
    }
}

impl<C, T: Clone> ImageCache<C, T> {
    /// The handle of the task that fetches `uri_or_path`. Where one is on file
    /// a clone of it is returned; nothing is started, and `spawn` is not
    /// called. Otherwise `spawn` is called once to start the task; its handle
    /// is filed under the source, and a clone of it is returned.
    pub fn get<F>(&mut self, uri_or_path: UriOrPath, spawn: F) -> (task: T) where
        F: FnOnce(&UriOrPath) -> T,

        requires
            old(self).well_formed(),
            !old(self)@.contains_key(uri_or_path@) ==> call_requires(spawn, (&uri_or_path,)),
        ensures
            final(self).well_formed(),
            final(self).client() == old(self).client(),
            exists|fresh: T|
                {
                    let (after, handle, spawned) = #[trigger] serve(
                        old(self)@,
                        uri_or_path@,
                        fresh,
                    );
                    &&& spawned ==> call_ensures(spawn, (&uri_or_path,), fresh)
                    &&& final(self)@ == after
                    &&& cloned(handle, task)
                },
    {
        match self.lookup(&uri_or_path) {
            Some(handle) => {
                let task = handle.clone();
                assert(serve(old(self)@, uri_or_path@, task).0 == old(self)@);
                task
            },
            None => {
                let fresh = spawn(&uri_or_path);
                let task = fresh.clone();
                let fingerprint = uri_or_path.fingerprint();
                let ghost key = uri_or_path@;
                let ghost before = self.images@;
                let mut sources = match self.images.remove(&fingerprint) {
                    Some(sources) => sources,
                    None => Vec::new(),
                };
                proof {
                    assert(sources@ == bucket(before, fingerprint));
                    assert(distinct(bucket(before, fingerprint)));
                    lemma_filed_push(sources@, uri_or_path, fresh);
                }
                sources.push((uri_or_path, fresh));
                self.images.insert(fingerprint, sources);
                proof {
                    let after = self.images@;
                    assert forall|other: u64| other != fingerprint implies #[trigger] bucket(
                        after,
                        other,
                    ) == bucket(before, other) by {}
                    assert forall|other: u64| distinct(#[trigger] bucket(after, other)) by {
                        if other != fingerprint {
                            assert(distinct(bucket(before, other)));
                        }
                    }
                    assert(shelved(after) =~= shelved(before).insert(key, fresh));
                }
                assert(final(self)@ == serve(old(self)@, uri_or_path@, fresh).0);
                task
            },
        }
    }
}

/// How [`image_from_fetched`] relates what was fetched to the image.
pub open spec fn fetched_image(
    fetched: Result<Fetched, ImageCacheError>,
    image: Result<Arc<ImageData>, ImageCacheError>,
) -> bool {
    match fetched {
        Err(error) => image == Err::<Arc<ImageData>, ImageCacheError>(error),
        Ok(Fetched::Response { status, body }) if !status_is_success(status) => {
            &&& image matches Err(ImageCacheError::BadStatus { status: reported, body: text })
            &&& reported == status
            &&& text@ == utf8_lossy(body@)
        },
        Ok(Fetched::Response { status, body }) => image_of_bytes(body@, image),
        Ok(Fetched::File(content)) => image_of_bytes(content@, image),
    }
}

/// What the task of a source resolves to, from what it fetched: the decoded
/// image, or the failure of the fetch, of the status or of the decoder.
pub fn image_from_fetched(fetched: Result<Fetched, ImageCacheError>) -> (image: Result<
    Arc<ImageData>,
    ImageCacheError,
>)
    ensures
        fetched_image(fetched, image),
{
    match fetched_bytes(fetched) {
        Ok(bytes) => decode_image(bytes.as_slice()),
        Err(error) => Err(error),
    }
}

} // verus!
