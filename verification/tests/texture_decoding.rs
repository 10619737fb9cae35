use kerkenez::app_core::{is_renderable_size, AppCore, WindowAction, WindowEventKind};
use kerkenez::error::KerkenezError;
use kerkenez::shader_source::debug_variant_source;
use kerkenez::texture::{flip_rows, texture_pixels};

fn png_bytes(width: u32, height: u32, pixels: Vec<u8>) -> Vec<u8> {
    let img = image::RgbaImage::from_raw(width, height, pixels).expect("pixel buffer fits");
    let mut out = std::io::Cursor::new(Vec::new());
    img.write_to(&mut out, image::ImageFormat::Png).expect("png encodes");
    out.into_inner()
}

#[test]
fn flip_rows_reverses_row_order() {
    // Two pixels wide, three rows high.
    let px: Vec<u8> = (0u8..24).collect();
    let out = flip_rows(&px, 2, 3);
    let mut expected: Vec<u8> = (16u8..24).collect();
    expected.extend(8u8..16);
    expected.extend(0u8..8);
    assert_eq!(out, expected);
}

#[test]
fn flip_rows_single_row_unchanged() {
    let px = vec![1u8, 2, 3, 4, 5, 6, 7, 8];
    assert_eq!(flip_rows(&px, 2, 1), px);
}

#[test]
fn flip_rows_empty_image() {
    let px: Vec<u8> = Vec::new();
    assert!(flip_rows(&px, 0, 5).is_empty());
    assert!(flip_rows(&px, 3, 0).is_empty());
}

#[test]
fn texture_pixels_decodes_png_bottom_row_first() {
    let top = [255u8, 0, 0, 255];
    let bottom = [0u8, 0, 255, 128];
    let mut pixels = top.to_vec();
    pixels.extend_from_slice(&bottom);
    let bytes = png_bytes(1, 2, pixels);
    let (w, h, out) = texture_pixels(&bytes, "png").expect("decodes");
    assert_eq!((w, h), (1, 2));
    let mut expected = bottom.to_vec();
    expected.extend_from_slice(&top);
    assert_eq!(out, expected);
}

#[test]
fn texture_pixels_extension_is_case_insensitive() {
    let bytes = png_bytes(1, 1, vec![9, 8, 7, 6]);
    let (w, h, out) = texture_pixels(&bytes, "PNG").expect("decodes");
    assert_eq!((w, h, out), (1, 1, vec![9, 8, 7, 6]));
}

#[test]
fn texture_pixels_rejects_garbage() {
    let err = texture_pixels(&[1, 2, 3, 4], "png").unwrap_err();
    assert!(matches!(err, KerkenezError::TextureLoadError(ref m) if m == "image could not be decoded"));
}

#[test]
fn texture_pixels_rejects_unknown_extension() {
    let bytes = png_bytes(1, 1, vec![1, 2, 3, 4]);
    assert!(matches!(texture_pixels(&bytes, "txt"), Err(KerkenezError::TextureLoadError(_))));
    assert!(matches!(texture_pixels(&bytes, ""), Err(KerkenezError::TextureLoadError(_))));
}

#[test]
fn debug_variant_after_version_line() {
    let src = "#version 410 core\nvoid main() {}\n";
    assert_eq!(
        debug_variant_source(src, 2),
        "#version 410 core\n#define DEBUG_MODE 2\nvoid main() {}\n"
    );
}

#[test]
fn debug_variant_without_version_line() {
    assert_eq!(debug_variant_source("void main() {}", 0), "#define DEBUG_MODE 0\nvoid main() {}");
    assert_eq!(debug_variant_source("x", -3), "#define DEBUG_MODE -3\nx");
}

#[test]
fn zero_size_resize_is_ignored() {
    assert!(is_renderable_size(1, 1));
    assert!(!is_renderable_size(0, 480));
    assert!(!is_renderable_size(640, 0));
    let mut app: AppCore<u8, u8> = AppCore::new();
    app.resume();
    assert_eq!(app.window_event(WindowEventKind::Resized { width: 0, height: 0 }), WindowAction::Ignore);
    assert_eq!(
        app.window_event(WindowEventKind::Resized { width: 0, height: 10 }),
        WindowAction::Ignore
    );
}
