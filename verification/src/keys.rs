//! The values under which assets are cached, and their fingerprints.
//!
//! A fingerprint is the 64-bit digest that `std`'s default hasher computes of a
//! key's bytes. It is fed a fixed layout, so equal keys have equal fingerprints.

use std::collections::hash_map::DefaultHasher;
use std::hash::Hasher;
use vstd::bytes::{spec_u32_to_le_bytes, spec_u64_to_le_bytes, u32_to_le_bytes, u64_to_le_bytes};
use vstd::prelude::*;
use vstd::std_specs::hash::DefaultHasherAdditionalSpecFns;
use vstd::utf8::encode_utf8;
use crate::geometry::{DevicePixels, Size};

verus! {

/// Where an image comes from: a remote address or a file on disk.
#[derive(Debug, Clone, Eq, Hash)]
pub enum UriOrPath {
    Uri(String),
    Path(String),
}

/// What a [`UriOrPath`] stands for: its kind and its text.
pub enum SourceKey {
    Uri(Seq<char>),
    Path(Seq<char>),
}

impl SourceKey {
    /// The byte that tells the two kinds of source apart in a fingerprint.
    pub open spec fn tag(self) -> u8 {
        match self {
            SourceKey::Uri(_) => 0,
            SourceKey::Path(_) => 1,
        }
    }

    /// The address or the path.
    pub open spec fn text(self) -> Seq<char> {
        match self {
            SourceKey::Uri(text) => text,
            SourceKey::Path(text) => text,
        }
    }

    /// The digest of the tag byte followed by the text in UTF-8.
    pub open spec fn fingerprint(self) -> u64 {
        DefaultHasher::spec_finish(seq![seq![self.tag()], encode_utf8(self.text())])
    }
}

impl View for UriOrPath {
    type V = SourceKey;

    open spec fn view(&self) -> SourceKey {
        match self {
            UriOrPath::Uri(uri) => SourceKey::Uri(uri@),
            UriOrPath::Path(path) => SourceKey::Path(path@),
        }
    }
}

impl PartialEq for UriOrPath {
    fn eq(&self, other: &Self) -> (r: bool) {
        match (self, other) {
            (UriOrPath::Uri(a), UriOrPath::Uri(b)) => *a == *b,
            (UriOrPath::Path(a), UriOrPath::Path(b)) => *a == *b,
            _ => false,
        }
    }
}

impl vstd::std_specs::cmp::PartialEqSpecImpl for UriOrPath {
    open spec fn obeys_eq_spec() -> bool {
        true
    }

    open spec fn eq_spec(&self, other: &Self) -> bool {
        self@ == other@
    }
}

impl UriOrPath {
    /// The source at a remote address.
    pub fn uri(uri: String) -> (r: Self)
        ensures
            r@ == SourceKey::Uri(uri@),
    {
        UriOrPath::Uri(uri)
    }

    /// The source in a file.
    pub fn path(path: String) -> (r: Self)
        ensures
            r@ == SourceKey::Path(path@),
    {
        UriOrPath::Path(path)
    }

    /// A copy of this source.
    pub fn duplicate(&self) -> (r: Self)
        ensures
            r@ == self@,
    {
        match self {
            UriOrPath::Uri(uri) => UriOrPath::Uri(uri.clone()),
            UriOrPath::Path(path) => UriOrPath::Path(path.clone()),
        }
    }

    /// The fingerprint of this source.
    pub fn fingerprint(&self) -> (h: u64)
        ensures
            h == self@.fingerprint(),
    {
        let mut hasher = DefaultHasher::new();
        let mut tag: Vec<u8> = Vec::new();
        match self {
            UriOrPath::Uri(uri) => {
                tag.push(0);
                hasher.write(tag.as_slice());
                hasher.write(uri.as_str().as_bytes());
            },
            UriOrPath::Path(path) => {
                tag.push(1);
                hasher.write(tag.as_slice());
                hasher.write(path.as_str().as_bytes());
            },
        }
        proof {
            assert(tag@ =~= seq![self@.tag()]);
            assert(hasher@ =~= seq![seq![self@.tag()], encode_utf8(self@.text())]);
        }
        hasher.finish()
    }
}

/// The digest of a fingerprint and a target size: eight bytes of the fingerprint,
/// then four of the width and four of the height, each least significant byte first.
pub open spec fn sized_fingerprint(id: u64, size: Size<DevicePixels>) -> u64 {
    DefaultHasher::spec_finish(
        seq![
            spec_u64_to_le_bytes(id),
            spec_u32_to_le_bytes(size.width.unsigned() as u32),
            spec_u32_to_le_bytes(size.height.unsigned() as u32),
        ],
    )
}

/// Computes [`sized_fingerprint`].
pub fn hash_sized(id: u64, size: &Size<DevicePixels>) -> (h: u64)
    ensures
        h == sized_fingerprint(id, *size),
{
    let mut hasher = DefaultHasher::new();
    let id_bytes = u64_to_le_bytes(id);
    hasher.write(id_bytes.as_slice());
    let width_bytes = u32_to_le_bytes(size.width.to_u32());
    hasher.write(width_bytes.as_slice());
    let height_bytes = u32_to_le_bytes(size.height.to_u32());
    hasher.write(height_bytes.as_slice());
    proof {
        assert(hasher@ =~= seq![
            spec_u64_to_le_bytes(id),
            spec_u32_to_le_bytes(size.width.unsigned() as u32),
            spec_u32_to_le_bytes(size.height.unsigned() as u32),
        ]);
    }
    hasher.finish()
}

/// The parameters of rendering a named vector graphic at a size.
#[derive(Debug, Clone)]
pub struct RenderSvgParams {
    pub path: String,
    pub size: Size<DevicePixels>,
}

} // verus!
