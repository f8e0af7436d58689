use media_extract::bitmap::{convert_bitmap, finish_bitmap_extraction, swap_channels};
use media_extract::errors::ExtractError;

const PNG_SIGNATURE: [u8; 8] = [137, 80, 78, 71, 13, 10, 26, 10];

#[test]
fn swap_exchanges_red_and_blue_in_every_pixel() {
    let mut buf = vec![
        10, 20, 30, 40, // one pixel: B G R A
        50, 60, 70, 80, // another
    ];
    swap_channels(&mut buf);
    assert_eq!(buf, vec![30, 20, 10, 40, 70, 60, 50, 80]);
}

#[test]
fn swap_leaves_a_trailing_incomplete_group_untouched() {
    let mut buf = vec![1, 2, 3, 4, 9, 8, 7];
    swap_channels(&mut buf);
    assert_eq!(buf, vec![3, 2, 1, 4, 9, 8, 7]);
}

#[test]
fn swapping_twice_reproduces_the_original_buffer() {
    let original: Vec<u8> = (0..=40).collect();
    let mut buf = original.clone();
    swap_channels(&mut buf);
    assert_ne!(buf, original);
    swap_channels(&mut buf);
    assert_eq!(buf, original);
}

#[test]
fn converted_bitmap_decodes_to_the_expected_rgba_pixels() {
    // A 2x2 top-down bitmap in blue-green-red-alpha order.
    let raw: Vec<u8> = vec![
        10, 20, 30, 255, // top-left
        0, 0, 255, 255, // top-right: pure red
        255, 0, 0, 128, // bottom-left: pure blue
        1, 2, 3, 4, // bottom-right
    ];
    let png = convert_bitmap(2, 2, raw).unwrap();
    assert_eq!(&png[0..8], &PNG_SIGNATURE);

    let decoded = image::load_from_memory_with_format(&png, image::ImageFormat::Png)
        .unwrap()
        .to_rgba8();
    assert_eq!(decoded.width(), 2);
    assert_eq!(decoded.height(), 2);
    assert_eq!(decoded.get_pixel(0, 0).0, [30, 20, 10, 255]);
    assert_eq!(decoded.get_pixel(1, 0).0, [255, 0, 0, 255]);
    assert_eq!(decoded.get_pixel(0, 1).0, [0, 0, 255, 128]);
    assert_eq!(decoded.get_pixel(1, 1).0, [3, 2, 1, 4]);
}

#[test]
fn inconsistent_buffer_length_is_an_encoding_error() {
    let raw: Vec<u8> = vec![0; 15];
    assert_eq!(convert_bitmap(2, 2, raw), Err(ExtractError::EncodingError));
}

#[test]
fn zero_dimension_is_an_encoding_error() {
    assert_eq!(convert_bitmap(0, 2, Vec::new()), Err(ExtractError::EncodingError));
    assert_eq!(convert_bitmap(2, 0, Vec::new()), Err(ExtractError::EncodingError));
}

#[test]
fn failed_row_copy_is_a_pixel_extraction_error() {
    let raw: Vec<u8> = vec![0; 16];
    assert_eq!(
        finish_bitmap_extraction(2, 2, 0, raw),
        Err(ExtractError::PixelExtractionError)
    );
}

#[test]
fn successful_row_copy_converts_like_convert_bitmap() {
    let raw: Vec<u8> = vec![
        10, 20, 30, 255, 0, 0, 255, 255, 255, 0, 0, 128, 1, 2, 3, 4,
    ];
    let direct = convert_bitmap(2, 2, raw.clone()).unwrap();
    let finished = finish_bitmap_extraction(2, 2, 2, raw).unwrap();
    assert_eq!(direct, finished);
}

#[test]
fn two_extractions_produce_independent_buffers() {
    let first: Vec<u8> = vec![0, 0, 255, 255]; // 1x1, pure red after swap
    let second: Vec<u8> = vec![255, 0, 0, 255]; // 1x1, pure blue after swap
    let png_a = convert_bitmap(1, 1, first).unwrap();
    let png_b = convert_bitmap(1, 1, second).unwrap();
    assert_ne!(png_a, png_b);
    let a = image::load_from_memory_with_format(&png_a, image::ImageFormat::Png)
        .unwrap()
        .to_rgba8();
    let b = image::load_from_memory_with_format(&png_b, image::ImageFormat::Png)
        .unwrap()
        .to_rgba8();
    assert_eq!(a.get_pixel(0, 0).0, [255, 0, 0, 255]);
    assert_eq!(b.get_pixel(0, 0).0, [0, 0, 255, 255]);
}
