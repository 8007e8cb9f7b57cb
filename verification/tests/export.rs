use gpu_tour::commands::Rgba;
use gpu_tour::export::{delivered, export, holds_image, ExportError};
use gpu_tour::image_clear::is_filled_with;

const PNG_SIGNATURE: [u8; 8] = [137, 80, 78, 71, 13, 10, 26, 10];

fn uniform(color: [u8; 4], pixels: usize) -> Vec<u8> {
    let mut bytes = Vec::with_capacity(pixels * 4);
    for _ in 0..pixels {
        bytes.extend_from_slice(&color);
    }
    bytes
}

#[test]
fn blue_clear_exports_to_a_blue_image() {
    let blue = Rgba { red: 0, green: 0, blue: 255, alpha: 255 };
    let readback = uniform([0, 0, 255, 255], 1024 * 1024);
    assert!(is_filled_with(&readback, blue));
    let file = export(&readback, 1024, 1024, "blue.png").unwrap();
    let decoded = image::load_from_memory(&file).unwrap().to_rgba8();
    assert_eq!(decoded.dimensions(), (1024, 1024));
    assert!(decoded.pixels().all(|pixel| pixel.0 == [0, 0, 255, 255]));
}

#[test]
fn exported_file_is_a_png_of_the_pixels() {
    let readback: Vec<u8> = vec![
        255, 0, 0, 255, 0, 255, 0, 255, 0, 0, 255, 255, //
        10, 20, 30, 40, 50, 60, 70, 80, 90, 100, 110, 120,
    ];
    let file = export(&readback, 3, 2, "fractal.png").unwrap();
    assert_eq!(&file[..8], &PNG_SIGNATURE);
    assert_ne!(file, readback);
    let decoded = image::load_from_memory(&file).unwrap().to_rgba8();
    assert_eq!(decoded.dimensions(), (3, 2));
    assert_eq!(decoded.into_raw(), readback);
}

#[test]
fn same_pixels_give_the_same_file() {
    let readback = uniform([9, 8, 7, 6], 16);
    let first = export(&readback, 4, 4, "a.png").unwrap();
    let second = export(&readback, 4, 4, "a.png").unwrap();
    assert_eq!(first, second);
}

#[test]
fn bytes_beyond_the_image_are_left_out() {
    let mut readback = uniform([1, 2, 3, 4], 4);
    readback.extend_from_slice(&[200, 201, 202, 203]);
    let file = export(&readback, 2, 2, "out.png").unwrap();
    let decoded = image::load_from_memory(&file).unwrap().to_rgba8();
    assert_eq!(decoded.dimensions(), (2, 2));
    assert_eq!(decoded.into_raw(), uniform([1, 2, 3, 4], 4));
}

#[test]
fn short_readback_is_refused() {
    let readback = uniform([0, 0, 255, 255], 5);
    assert_eq!(export(&readback, 3, 2, "blue.png"), Err(ExportError::BufferTooSmall));
    assert_eq!(export(&[], 1, 1, "blue.png"), Err(ExportError::BufferTooSmall));
    assert_eq!(export(&readback, 3, 2, "blue.jpg"), Err(ExportError::BufferTooSmall));
}

#[test]
fn name_that_is_not_png_is_refused() {
    let readback = uniform([0, 0, 255, 255], 4);
    assert_eq!(export(&readback, 2, 2, "blue.jpg"), Err(ExportError::UnsupportedFormat));
    assert_eq!(export(&readback, 2, 2, "blue"), Err(ExportError::UnsupportedFormat));
    assert_eq!(export(&readback, 2, 2, "png"), Err(ExportError::UnsupportedFormat));
    assert_eq!(export(&readback, 2, 2, "blue.txt"), Err(ExportError::UnsupportedFormat));
}

#[test]
fn extension_is_read_without_regard_to_case() {
    let readback = uniform([0, 0, 255, 255], 4);
    assert!(export(&readback, 2, 2, "BLUE.PNG").is_ok());
    assert!(export(&readback, 2, 2, "dir.d/blue.png").is_ok());
}

#[test]
fn image_without_extent_is_refused() {
    assert_eq!(export(&[], 0, 0, "blue.png"), Err(ExportError::EncodingFailed));
    assert_eq!(export(&[1, 2, 3, 4], 0, 5, "blue.png"), Err(ExportError::EncodingFailed));
    assert_eq!(export(&[1, 2, 3, 4], 5, 0, "blue.png"), Err(ExportError::EncodingFailed));
}

#[test]
fn readback_holds_image_when_it_has_four_bytes_per_pixel() {
    assert!(holds_image(1024 * 1024 * 4, 1024, 1024));
    assert!(holds_image(1024 * 1024 * 4 + 1, 1024, 1024));
    assert!(!holds_image(1024 * 1024 * 4 - 1, 1024, 1024));
    assert!(holds_image(0, 0, 9));
    assert!(!holds_image(3, 1, 1));
    assert!(holds_image(4, 1, 1));
    assert!(!holds_image(usize::MAX, u32::MAX, u32::MAX));
}

#[test]
fn encoder_answer_is_handed_on() {
    assert_eq!(delivered(Some(vec![1, 2, 3])), Ok(vec![1, 2, 3]));
    assert_eq!(delivered(None), Err(ExportError::EncodingFailed));
}
