use std::cell::Cell;
use std::sync::Arc;

use image_assets::geometry::{size, DevicePixels};
use image_assets::keys::RenderSvgParams;
use image_assets::svg_renderer::{alpha_mask, mask_of_parsed, RenderError, SvgRenderer, SvgSize};
use resvg::tiny_skia::{Pixmap, Transform};
use resvg::usvg::fontdb::Database;
use resvg::usvg::Tree;

const HALF_CLEAR: &str = "<svg xmlns=\"http://www.w3.org/2000/svg\" width=\"4\" height=\"2\">\
<rect width=\"2\" height=\"2\" fill=\"#00ff00\"/></svg>";

fn params(path: &str, width: i32, height: i32) -> RenderSvgParams {
    RenderSvgParams { path: path.to_string(), size: size(DevicePixels(width), DevicePixels(height)) }
}

fn render_pixmap(tree: &Tree, target: SvgSize) -> Pixmap {
    let SvgSize::Size(target) = target;
    let ratio = target.width.0 as f32 / tree.size().width();
    let mut surface = Pixmap::new(
        (tree.size().width() * ratio) as u32,
        (tree.size().height() * ratio) as u32,
    )
    .unwrap();
    resvg::render(tree, Transform::from_scale(ratio, ratio), &mut surface.as_mut());
    surface
}

fn icons(path: &str) -> Result<Vec<u8>, String> {
    match path {
        "icons/half.svg" => Ok(HALF_CLEAR.as_bytes().to_vec()),
        "icons/broken.svg" => Ok(b"<svg".to_vec()),
        other => Err(format!("no asset at {}", other)),
    }
}

#[test]
fn the_alpha_channel_is_every_fourth_byte() {
    assert_eq!(alpha_mask(&[1, 2, 3, 4, 5, 6, 7, 8]), vec![4, 8]);
    assert_eq!(alpha_mask(&[0, 0, 0, 255]), vec![255]);
    assert_eq!(alpha_mask(&[]), Vec::<u8>::new());
    assert_eq!(alpha_mask(&[1, 2, 3]), Vec::<u8>::new());
    assert_eq!(alpha_mask(&[1, 2, 3, 4, 5, 6, 7]), vec![4]);
}

#[test]
fn a_target_without_width_fails_before_the_source_is_asked() {
    let asked = Cell::new(0);
    let renderer = SvgRenderer::new(
        |path: &str| {
            asked.set(asked.get() + 1);
            icons(path)
        },
        Arc::new(Database::new()),
    );
    for height in [0, 1, 16, i32::MAX, -1] {
        let mask = renderer.render(&params("icons/half.svg", 0, height), render_pixmap);
        assert!(matches!(mask, Err(RenderError::ZeroSize)));
    }
    assert_eq!(asked.get(), 0);
}

#[test]
fn a_target_without_height_fails_before_the_source_is_asked() {
    let asked = Cell::new(0);
    let renderer = SvgRenderer::new(
        |path: &str| {
            asked.set(asked.get() + 1);
            icons(path)
        },
        Arc::new(Database::new()),
    );
    for width in [0, 1, 16, i32::MAX, -1] {
        let mask = renderer.render(&params("icons/missing.svg", width, 0), render_pixmap);
        assert!(matches!(mask, Err(RenderError::ZeroSize)));
    }
    assert_eq!(asked.get(), 0);
}

#[test]
fn a_graphic_renders_to_one_byte_of_alpha_for_each_pixel() {
    let renderer = SvgRenderer::new(icons, Arc::new(Database::new()));
    let mask = renderer.render(&params("icons/half.svg", 4, 2), render_pixmap).unwrap();
    assert_eq!(mask, vec![255, 255, 0, 0, 255, 255, 0, 0]);
    let mask = renderer.render(&params("icons/half.svg", 8, 4), render_pixmap).unwrap();
    assert_eq!(mask.len(), 8 * 4);
    for row in mask.chunks(8) {
        assert_eq!(row, &[255, 255, 255, 255, 0, 0, 0, 0]);
    }
}

#[test]
fn the_source_is_asked_once_for_the_path() {
    let asked = Cell::new(0);
    let renderer = SvgRenderer::new(
        |path: &str| {
            assert_eq!(path, "icons/half.svg");
            asked.set(asked.get() + 1);
            icons(path)
        },
        Arc::new(Database::new()),
    );
    assert!(renderer.render(&params("icons/half.svg", 4, 2), render_pixmap).is_ok());
    assert_eq!(asked.get(), 1);
}

#[test]
fn a_failure_of_the_source_is_passed_on() {
    let renderer = SvgRenderer::new(icons, Arc::new(Database::new()));
    let mask = renderer.render(&params("icons/missing.svg", 4, 2), render_pixmap);
    assert!(matches!(mask, Err(RenderError::Load(message)) if message == "no asset at icons/missing.svg"));
}

#[test]
fn bytes_that_are_no_document_fail_to_parse() {
    let renderer = SvgRenderer::new(icons, Arc::new(Database::new()));
    let mask = renderer.render(&params("icons/broken.svg", 4, 2), render_pixmap);
    assert!(matches!(mask, Err(RenderError::Parse(_))));
    assert!(renderer.tree(b"<svg").is_err());
    let tree = renderer.tree(HALF_CLEAR.as_bytes()).unwrap();
    assert_eq!(tree.size().width(), 4.0);
    assert_eq!(tree.size().height(), 2.0);
}

#[test]
fn what_the_source_gave_is_rendered_without_asking_again() {
    let renderer = SvgRenderer::new(|_: &str| -> Result<Vec<u8>, String> { unreachable!() }, Arc::new(Database::new()));
    let target = size(DevicePixels(4), DevicePixels(2));
    let loaded: Result<Vec<u8>, String> = Ok(HALF_CLEAR.as_bytes().to_vec());
    let mask = renderer.mask_of_loaded(loaded, target, render_pixmap).unwrap();
    assert_eq!(mask, vec![255, 255, 0, 0, 255, 255, 0, 0]);
    let failed: Result<Vec<u8>, String> = Err("offline".to_string());
    let mask = renderer.mask_of_loaded(failed, target, render_pixmap);
    assert!(matches!(mask, Err(RenderError::Load(message)) if message == "offline"));
}

#[test]
fn bytes_that_are_neither_text_nor_gzip_data_are_no_document() {
    let renderer = SvgRenderer::new(icons, Arc::new(Database::new()));
    assert!(renderer.tree(&[0xff, b'<', b's', b'v', b'g']).is_err());
    assert!(renderer.tree(&[0xc3, 0x28]).is_err());
    assert!(renderer.tree(&[0xed, 0xa0, 0x80]).is_err());
    let mut broken = HALF_CLEAR.as_bytes().to_vec();
    broken.push(0x80);
    assert!(renderer.tree(&broken).is_err());
    assert!(renderer.tree(HALF_CLEAR.as_bytes()).is_ok());
    let renderer = SvgRenderer::new(
        |_: &str| -> Result<Vec<u8>, String> { Ok(vec![0xff, 0xfe]) },
        Arc::new(Database::new()),
    );
    let mask = renderer.render(&params("icons/half.svg", 4, 2), render_pixmap);
    assert!(matches!(mask, Err(RenderError::Parse(_))));
}

#[test]
fn the_zero_size_error_says_what_went_wrong() {
    let renderer = SvgRenderer::new(icons, Arc::new(Database::new()));
    let failed = renderer.render(&params("a.svg", 16, 0), render_pixmap).unwrap_err();
    assert_eq!(failed.message(), Some("can't render at a zero size"));
    let failed = renderer.render(&params("a.svg", 0, 16), render_pixmap).unwrap_err();
    assert_eq!(failed.message(), Some("can't render at a zero size"));
    let zero: RenderError<String> = RenderError::ZeroSize;
    assert_eq!(zero.message(), Some("can't render at a zero size"));
}

#[test]
fn failures_of_the_source_and_of_the_parser_have_words_of_their_own() {
    let renderer = SvgRenderer::new(icons, Arc::new(Database::new()));
    let failed = renderer.render(&params("icons/missing.svg", 4, 2), render_pixmap).unwrap_err();
    assert_eq!(failed.message(), None);
    let failed = renderer.render(&params("icons/broken.svg", 4, 2), render_pixmap).unwrap_err();
    assert_eq!(failed.message(), None);
}

#[test]
fn a_parsed_document_becomes_its_mask_and_a_failure_the_parsers_error() {
    let fonts = Database::new();
    let options = resvg::usvg::Options::default();
    let target = size(DevicePixels(4), DevicePixels(2));
    let parsed = Tree::from_data(HALF_CLEAR.as_bytes(), &options, &fonts);
    let mask: Result<Vec<u8>, RenderError<String>> = mask_of_parsed(parsed, target, render_pixmap);
    assert_eq!(mask.unwrap(), vec![255, 255, 0, 0, 255, 255, 0, 0]);
    let parsed = Tree::from_data(b"not svg", &options, &fonts);
    let mask: Result<Vec<u8>, RenderError<String>> =
        mask_of_parsed(parsed, target, |_: &Tree, _: SvgSize| -> Pixmap { unreachable!() });
    assert!(matches!(mask, Err(RenderError::Parse(resvg::usvg::Error::ParsingFailed(_)))));
    let parsed = Tree::from_data(&[0xff], &options, &fonts);
    let mask: Result<Vec<u8>, RenderError<String>> =
        mask_of_parsed(parsed, target, |_: &Tree, _: SvgSize| -> Pixmap { unreachable!() });
    assert!(matches!(mask, Err(RenderError::Parse(resvg::usvg::Error::NotAnUtf8Str))));
}

#[test]
fn empty_bytes_and_plain_words_are_no_graphic() {
    let renderer = SvgRenderer::new(icons, Arc::new(Database::new()));
    let target = size(DevicePixels(4), DevicePixels(2));
    for bytes in [&b""[..], b"not svg"] {
        let loaded: Result<Vec<u8>, String> = Ok(bytes.to_vec());
        let mask = renderer.mask_of_loaded(loaded, target, render_pixmap);
        assert!(matches!(mask, Err(RenderError::Parse(_))));
    }
}
