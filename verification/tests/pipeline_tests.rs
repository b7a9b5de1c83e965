//! The in-memory resize pipeline, run against the real codecs.

use img_resize::classify::{classify, Classification};
use img_resize::errors::RunError;
use img_resize::filter::FilterKind;
use img_resize::pipeline::{effective_target, process_image};

fn encoded_bytes(w: u32, h: u32, format: image::ImageFormat) -> Vec<u8> {
    let img = image::DynamicImage::ImageRgb8(image::RgbImage::from_pixel(
        w,
        h,
        image::Rgb([40, 90, 160]),
    ));
    let mut buffer: Vec<u8> = Vec::new();
    img.write_to(&mut std::io::Cursor::new(&mut buffer), format).unwrap();
    buffer
}

fn encoded_rgba_bytes(w: u32, h: u32, format: image::ImageFormat) -> Vec<u8> {
    let img = image::DynamicImage::ImageRgba8(image::RgbaImage::from_pixel(
        w,
        h,
        image::Rgba([40, 90, 160, 255]),
    ));
    let mut buffer: Vec<u8> = Vec::new();
    img.write_to(&mut std::io::Cursor::new(&mut buffer), format).unwrap();
    buffer
}

fn decoded_dimensions(bytes: &[u8]) -> (u32, u32) {
    image::GenericImageView::dimensions(&image::load_from_memory(bytes).unwrap())
}

#[test]
fn effective_target_uses_the_source_width_for_both_zero_axes() {
    // The zero sentinel falls back to the source's own width on the width
    // axis — and, deliberately, on the height axis as well.
    assert_eq!(effective_target(100, 60, 0, 0), (100, 100));
    assert_eq!(effective_target(100, 60, 50, 0), (50, 100));
    assert_eq!(effective_target(100, 60, 0, 40), (100, 40));
    assert_eq!(effective_target(100, 60, 50, 40), (50, 40));
}

#[test]
fn resizing_a_square_png_round_trips_at_half_size() {
    let bytes = encoded_bytes(100, 100, image::ImageFormat::Png);
    let out = process_image(&bytes, "png", 50, 50, FilterKind::Triangle).unwrap();
    assert_eq!(decoded_dimensions(&out), (50, 50));
    assert_eq!(image::guess_format(&out).unwrap(), image::ImageFormat::Png);
}

#[test]
fn zero_bounds_keep_a_square_image_at_its_own_size() {
    let bytes = encoded_bytes(100, 100, image::ImageFormat::Png);
    let out = process_image(&bytes, "png", 0, 0, FilterKind::Nearest).unwrap();
    assert_eq!(decoded_dimensions(&out), (100, 100));
}

#[test]
fn zero_bounds_on_a_wide_image_fit_the_width_box() {
    // Source 80x40; both bounds zero resolve to the source width, so the
    // target box is 80x80 and the aspect-preserving resize keeps 80x40.
    let bytes = encoded_bytes(80, 40, image::ImageFormat::Png);
    let out = process_image(&bytes, "png", 0, 0, FilterKind::Triangle).unwrap();
    assert_eq!(decoded_dimensions(&out), (80, 40));
}

#[test]
fn aspect_ratio_is_preserved_within_the_target_box() {
    let bytes = encoded_bytes(100, 50, image::ImageFormat::Png);
    let out = process_image(&bytes, "png", 50, 50, FilterKind::CatmullRom).unwrap();
    assert_eq!(decoded_dimensions(&out), (50, 25));
}

#[test]
fn a_jpeg_resizes_and_a_text_file_is_skipped() {
    // One valid JPEG and one text file: exactly one entry is classified for
    // the pipeline, and its resize succeeds.
    let entries = [("photo.jpg", "jpg", true), ("notes.txt", "txt", false)];
    let mut outputs: Vec<Vec<u8>> = Vec::new();
    for (_, ext, is_jpeg) in entries {
        match classify(false, ext) {
            Classification::Image => {
                assert!(is_jpeg);
                let bytes = encoded_bytes(64, 64, image::ImageFormat::Jpeg);
                outputs.push(process_image(&bytes, ext, 32, 32, FilterKind::Triangle).unwrap());
            },
            Classification::NonImage => assert!(!is_jpeg),
            Classification::Directory => unreachable!(),
        }
    }
    assert_eq!(outputs.len(), 1);
    assert_eq!(decoded_dimensions(&outputs[0]), (32, 32));
}

#[test]
fn an_unaddressable_target_box_fails_to_save_instead_of_crashing() {
    let bytes = encoded_bytes(2, 2, image::ImageFormat::Png);
    assert_eq!(
        process_image(&bytes, "png", 4_000_000_000, 4_000_000_000, FilterKind::Nearest),
        Err(RunError::SaveFailed)
    );
    // A box whose buffer would pass a usize check but overflow a vector's
    // isize::MAX byte capacity is refused as well.
    let tiny = encoded_bytes(1, 1, image::ImageFormat::Png);
    assert_eq!(
        process_image(&tiny, "png", 2_147_483_647, 1_073_741_824, FilterKind::Nearest),
        Err(RunError::SaveFailed)
    );
}

#[test]
fn corrupt_bytes_abort_with_decode_failed() {
    let garbage = b"this is not an image container at all";
    assert_eq!(
        process_image(garbage, "png", 10, 10, FilterKind::Lanczos3),
        Err(RunError::DecodeFailed)
    );
}

#[test]
fn a_truncated_png_aborts_with_decode_failed() {
    let mut bytes = encoded_bytes(100, 100, image::ImageFormat::Png);
    bytes.truncate(bytes.len() / 2);
    assert_eq!(
        process_image(&bytes, "png", 50, 50, FilterKind::Triangle),
        Err(RunError::DecodeFailed)
    );
}

#[test]
fn the_first_failing_file_stops_the_batch() {
    // The driver's policy: the first failure anywhere aborts the batch, so
    // a corrupt file in the middle leaves only the outputs written before
    // it in enumeration order.
    let files: [(&str, Vec<u8>); 3] = [
        ("a.png", encoded_bytes(20, 20, image::ImageFormat::Png)),
        ("b.png", b"corrupt".to_vec()),
        ("c.png", encoded_bytes(20, 20, image::ImageFormat::Png)),
    ];
    let mut outputs: Vec<Vec<u8>> = Vec::new();
    let mut failure: Option<RunError> = None;
    for (_, bytes) in &files {
        match process_image(bytes, "png", 10, 10, FilterKind::Nearest) {
            Ok(out) => outputs.push(out),
            Err(e) => {
                failure = Some(e);
                break;
            },
        }
    }
    assert_eq!(failure, Some(RunError::DecodeFailed));
    assert_eq!(outputs.len(), 1);
}

#[test]
fn every_allow_listed_format_encodes_a_resized_output() {
    // The formats whose codecs both decode and encode under the pipeline.
    let cases = [
        ("bmp", image::ImageFormat::Bmp),
        ("gif", image::ImageFormat::Gif),
        ("ico", image::ImageFormat::Ico),
        ("jpeg", image::ImageFormat::Jpeg),
        ("jpg", image::ImageFormat::Jpeg),
        ("png", image::ImageFormat::Png),
        ("qoi", image::ImageFormat::Qoi),
        ("tga", image::ImageFormat::Tga),
        ("tiff", image::ImageFormat::Tiff),
        ("webp", image::ImageFormat::WebP),
    ];
    for (ext, format) in cases {
        // The ICO codec stores and demands 32-bit RGBA entries.
        let bytes = if ext == "ico" {
            encoded_rgba_bytes(16, 16, format)
        } else {
            encoded_bytes(16, 16, format)
        };
        let out = match process_image(&bytes, ext, 8, 8, FilterKind::Triangle) {
            Ok(out) => out,
            Err(e) => panic!("format {ext} failed with {e:?}"),
        };
        let decoded = image::load_from_memory_with_format(&out, format).unwrap();
        assert_eq!(image::GenericImageView::dimensions(&decoded), (8, 8), "format {ext}");
    }
}
