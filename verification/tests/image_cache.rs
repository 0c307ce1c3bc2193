use std::cell::Cell;
use std::io::Cursor;
use std::sync::Arc;

use image_assets::error::ImageCacheError;
use image_assets::image_cache::{image_from_fetched, ImageCache};
use image_assets::fetch::Fetched;
use image_assets::keys::UriOrPath;

fn uri(text: &str) -> UriOrPath {
    UriOrPath::uri(text.to_string())
}

fn path(text: &str) -> UriOrPath {
    UriOrPath::path(text.to_string())
}

fn png_of_rgba(width: u32, height: u32, samples: Vec<u8>) -> Vec<u8> {
    let buffer = image::RgbaImage::from_raw(width, height, samples).unwrap();
    let mut file = Vec::new();
    image::DynamicImage::ImageRgba8(buffer)
        .write_to(&mut Cursor::new(&mut file), image::ImageOutputFormat::Png)
        .unwrap();
    file
}

#[test]
fn a_new_image_cache_has_no_handle() {
    let cache: ImageCache<&str, u32> = ImageCache::new("client");
    assert_eq!(*cache.client(), "client");
    assert_eq!(cache.lookup(&uri("a")), None);
}

#[test]
fn many_requests_for_one_source_start_one_task() {
    let mut cache: ImageCache<(), Arc<u32>> = ImageCache::new(());
    let started = Cell::new(0);
    let mut handles = Vec::new();
    for _ in 0..5 {
        let handle = cache.get(uri("https://example.com/a.png"), |_| {
            started.set(started.get() + 1);
            Arc::new(started.get())
        });
        handles.push(handle);
    }
    assert_eq!(started.get(), 1);
    for handle in &handles {
        assert!(Arc::ptr_eq(handle, &handles[0]));
        assert_eq!(**handle, 1);
    }
    let filed = cache.lookup(&uri("https://example.com/a.png")).unwrap();
    assert!(Arc::ptr_eq(filed, &handles[0]));
}

#[test]
fn each_source_has_a_task_of_its_own() {
    let mut cache: ImageCache<(), u32> = ImageCache::new(());
    let started = Cell::new(0);
    let spawn = |_: &UriOrPath| {
        started.set(started.get() + 1);
        started.get()
    };
    assert_eq!(cache.get(uri("a"), spawn), 1);
    assert_eq!(cache.get(path("a"), spawn), 2);
    assert_eq!(cache.get(uri("b"), spawn), 3);
    assert_eq!(cache.get(uri("a"), spawn), 1);
    assert_eq!(cache.get(path("a"), spawn), 2);
    assert_eq!(cache.get(uri("b"), spawn), 3);
    assert_eq!(started.get(), 3);
    assert_eq!(cache.lookup(&path("a")), Some(&2));
    assert_eq!(cache.lookup(&path("b")), None);
}

#[test]
fn the_task_is_started_for_the_source_asked_for() {
    let mut cache: ImageCache<(), String> = ImageCache::new(());
    let handle = cache.get(path("/tmp/a.png"), |source| match source {
        UriOrPath::Path(path) => path.clone(),
        UriOrPath::Uri(uri) => uri.clone(),
    });
    assert_eq!(handle, "/tmp/a.png");
}

#[test]
fn a_task_resolves_to_the_decoded_image() {
    let file = png_of_rgba(2, 1, vec![1, 2, 3, 4, 5, 6, 7, 8]);
    let image = image_from_fetched(Ok(Fetched::File(file.clone()))).unwrap();
    assert_eq!((image.width(), image.height()), (2, 1));
    assert_eq!(image.as_bytes(), &[1, 2, 3, 4, 5, 6, 7, 8]);
    let image = image_from_fetched(Ok(Fetched::Response { status: 200, body: file })).unwrap();
    assert_eq!(image.as_bytes(), &[1, 2, 3, 4, 5, 6, 7, 8]);
}

#[test]
fn a_task_resolves_to_the_failure_of_its_fetch_status_or_decoder() {
    let failed = image_from_fetched(Err(ImageCacheError::Client("unreachable".to_string())));
    assert!(matches!(failed, Err(ImageCacheError::Client(message)) if message == "unreachable"));
    let missing = std::io::Error::new(std::io::ErrorKind::NotFound, "no such file");
    let failed = image_from_fetched(Err(ImageCacheError::Io(Arc::new(missing))));
    assert!(matches!(failed, Err(ImageCacheError::Io(_))));
    let failed = image_from_fetched(Ok(Fetched::Response { status: 301, body: b"moved".to_vec() }));
    assert!(matches!(failed, Err(ImageCacheError::BadStatus { status: 301, body }) if body == "moved"));
    let failed = image_from_fetched(Ok(Fetched::File(b"<svg/>".to_vec())));
    assert!(matches!(failed, Err(ImageCacheError::Image(_))));
}
