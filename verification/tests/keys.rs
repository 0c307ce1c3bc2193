use std::collections::hash_map::DefaultHasher;
use std::hash::Hasher;

use image_assets::geometry::{size, DevicePixels};
use image_assets::keys::{hash_sized, UriOrPath};

fn digest(parts: &[&[u8]]) -> u64 {
    let mut hasher = DefaultHasher::new();
    for part in parts {
        hasher.write(part);
    }
    hasher.finish()
}

#[test]
fn a_fingerprint_digests_the_tag_and_the_text() {
    let uri = UriOrPath::uri("https://example.com/a.png".to_string());
    assert_eq!(uri.fingerprint(), digest(&[&[0], b"https://example.com/a.png"]));
    let path = UriOrPath::path("/tmp/a.png".to_string());
    assert_eq!(path.fingerprint(), digest(&[&[1], b"/tmp/a.png"]));
    let empty = UriOrPath::uri(String::new());
    assert_eq!(empty.fingerprint(), digest(&[&[0], b""]));
    let accented = UriOrPath::path("caf\u{e9}".to_string());
    assert_eq!(accented.fingerprint(), digest(&[&[1], &[b'c', b'a', b'f', 0xc3, 0xa9]]));
}

#[test]
fn equal_sources_have_equal_fingerprints() {
    let first = UriOrPath::uri("https://example.com/a.png".to_string());
    let second = UriOrPath::uri("https://example.com/a.png".to_string());
    assert_eq!(first.fingerprint(), second.fingerprint());
    assert_eq!(first.duplicate().fingerprint(), first.fingerprint());
}

#[test]
fn an_address_and_a_path_of_one_text_are_two_sources() {
    let uri = UriOrPath::uri("a.png".to_string());
    let path = UriOrPath::path("a.png".to_string());
    assert_ne!(uri, path);
    assert_ne!(uri.fingerprint(), path.fingerprint());
}

#[test]
fn sources_are_equal_where_kind_and_text_are() {
    assert_eq!(UriOrPath::uri("a".to_string()), UriOrPath::Uri("a".to_string()));
    assert_eq!(UriOrPath::path("a".to_string()), UriOrPath::Path("a".to_string()));
    assert_ne!(UriOrPath::uri("a".to_string()), UriOrPath::uri("b".to_string()));
    assert_ne!(UriOrPath::path("a".to_string()), UriOrPath::path("b".to_string()));
    let source = UriOrPath::path("a".to_string());
    assert_eq!(source.duplicate(), source);
}

#[test]
fn a_sized_fingerprint_digests_the_fingerprint_and_both_sides() {
    let target = size(DevicePixels(640), DevicePixels(480));
    let expected = digest(&[
        &0x1122_3344_5566_7788u64.to_le_bytes(),
        &640u32.to_le_bytes(),
        &480u32.to_le_bytes(),
    ]);
    assert_eq!(hash_sized(0x1122_3344_5566_7788, &target), expected);
    let negative = size(DevicePixels(-1), DevicePixels(1));
    let expected = digest(&[&7u64.to_le_bytes(), &u32::MAX.to_le_bytes(), &1u32.to_le_bytes()]);
    assert_eq!(hash_sized(7, &negative), expected);
}

#[test]
fn a_sized_fingerprint_tells_sizes_and_documents_apart() {
    let small = size(DevicePixels(16), DevicePixels(16));
    let large = size(DevicePixels(32), DevicePixels(32));
    let wide = size(DevicePixels(32), DevicePixels(16));
    assert_ne!(hash_sized(1, &small), hash_sized(1, &large));
    assert_ne!(hash_sized(1, &wide), hash_sized(1, &large));
    assert_ne!(hash_sized(1, &small), hash_sized(2, &small));
    assert_eq!(hash_sized(1, &small), hash_sized(1, &size(DevicePixels(16), DevicePixels(16))));
}
