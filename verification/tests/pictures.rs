use photobooth::camera::{decode_rgb, encode_photo, CameraError, MockCamera};
use photobooth::picture::{GrayImage, RgbImage};
use photobooth::printer::{BrotherHLL2405W, PrinterError};

#[test]
fn mock_frame_is_grey() {
    let frame = MockCamera::frame();
    assert_eq!(frame.width(), 800);
    assert_eq!(frame.height(), 600);
    assert_eq!(frame.pixels().len(), 800 * 600 * 3);
    assert!(frame.pixels().iter().all(|&b| b == 50));
}

#[test]
fn filled_image_repeats_its_colour() {
    let img = RgbImage::filled(2, 1, 1, 2, 3);
    assert_eq!(img.pixels(), &vec![1, 2, 3, 1, 2, 3]);
}

#[test]
fn photo_survives_a_png_round_trip() {
    let img = RgbImage::filled(4, 3, 10, 20, 30);
    let bytes = match encode_photo(&img, "./photos/photo_1.png") {
        Ok(b) => b,
        Err(e) => panic!("encoding failed: {}", e.message()),
    };
    assert_eq!(&bytes[1..4], b"PNG");
    match decode_rgb(&bytes, "./photos/photo_1.png") {
        Ok(back) => {
            assert_eq!(back.width(), 4);
            assert_eq!(back.height(), 3);
            assert_eq!(back.pixels(), img.pixels());
        }
        Err(e) => panic!("decoding failed: {}", e.message()),
    }
}

#[test]
fn garbage_is_not_a_photo() {
    match decode_rgb(b"not an image", "./photos/photo_1.jpg") {
        Err(CameraError::ImageDecodeError(m)) => assert!(!m.is_empty()),
        _ => panic!("expected a decode error"),
    }
}

#[test]
fn unknown_extension_cannot_be_encoded() {
    let img = RgbImage::filled(1, 1, 0, 0, 0);
    assert!(matches!(
        encode_photo(&img, "./photos/photo_1.unknownext"),
        Err(CameraError::ImageDecodeError(_))
    ));
}

#[test]
fn print_copy_is_black_and_white_beside_the_photo() {
    let img = RgbImage::filled(3, 2, 200, 100, 50);
    let bytes = match encode_photo(&img, "./x/photo_a.png") {
        Ok(b) => b,
        Err(e) => panic!("encoding failed: {}", e.message()),
    };
    match BrotherHLL2405W::prepare_print_copy("./x/photo_a.png", &bytes) {
        Ok((path, gray)) => {
            assert_eq!(path, "./x/print_photo_a.png");
            assert_ne!(gray, bytes);
            match GrayImage::decode(&gray, &path) {
                Ok(g) => {
                    assert_eq!(g.width(), 3);
                    assert_eq!(g.height(), 2);
                    assert_eq!(g.pixels().len(), 6);
                    let first = g.pixels()[0];
                    assert!(g.pixels().iter().all(|&p| p == first));
                    assert!(first > 50 && first < 200);
                }
                Err(e) => panic!("the copy does not decode: {}", e),
            }
        }
        Err(e) => panic!("preparing failed: {}", e.message()),
    }
}

#[test]
fn print_copy_of_garbage_is_an_image_error() {
    match BrotherHLL2405W::prepare_print_copy("./x/photo_a.png", b"garbage") {
        Err(PrinterError::ImageError(m)) => assert!(!m.is_empty()),
        _ => panic!("expected an image error"),
    }
    let png = match encode_photo(&RgbImage::filled(1, 1, 9, 9, 9), "./x/photo_b.png") {
        Ok(b) => b,
        Err(e) => panic!("encoding failed: {}", e.message()),
    };
    assert!(matches!(
        BrotherHLL2405W::prepare_print_copy("photos/..", &png),
        Err(PrinterError::ImageError(_))
    ));
}
