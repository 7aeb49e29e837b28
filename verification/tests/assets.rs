use druid_game::io::asset_loader::load_bitmap_from_bytes;
use druid_game::io::LoadError;
use druid_game::render::Rgb;

// A 2x1 RGBA PNG: an opaque red pixel, then a half-transparent blue pixel.
const TWO_PIXEL_PNG: [u8; 71] = [
    137, 80, 78, 71, 13, 10, 26, 10, 0, 0, 0, 13, 73, 72, 68, 82, 0, 0, 0, 2, 0, 0, 0, 1, 8, 6, 0,
    0, 0, 244, 34, 127, 138, 0, 0, 0, 14, 73, 68, 65, 84, 120, 156, 99, 248, 207, 192, 0, 66, 13,
    0, 15, 122, 3, 126, 119, 233, 127, 151, 0, 0, 0, 0, 73, 69, 78, 68, 174, 66, 96, 130,
];

#[test]
fn test_decoding_a_png_yields_its_pixels() {
    let bytes = TWO_PIXEL_PNG.to_vec();
    let bitmap = load_bitmap_from_bytes(&bytes).expect("a valid PNG must decode");
    assert_eq!(2, bitmap.width());
    assert_eq!(1, bitmap.height());
    // The alpha channel is dropped.
    assert_eq!(
        &vec![Rgb { r: 255, g: 0, b: 0 }, Rgb { r: 0, g: 0, b: 255 }],
        bitmap.colors_ref()
    );
}

#[test]
fn test_decoding_garbage_bytes_fails() {
    let bytes = vec![1, 2, 3, 4, 5, 6, 7, 8];
    let result = load_bitmap_from_bytes(&bytes);
    assert!(matches!(result, Err(LoadError::OtherError(_))));
}

#[test]
fn test_decoding_an_empty_stream_fails() {
    let bytes = Vec::new();
    let result = load_bitmap_from_bytes(&bytes);
    assert!(matches!(result, Err(LoadError::OtherError(_))));
}

#[test]
fn test_decoding_a_truncated_png_fails() {
    let bytes = TWO_PIXEL_PNG[..40].to_vec();
    let result = load_bitmap_from_bytes(&bytes);
    assert!(matches!(result, Err(LoadError::OtherError(_))));
}
