use dcm_redact::canonical::CanonicalImage;
use dcm_redact::display::MAX_DISPLAY_DIM;
use dcm_redact::document::OpenDocument;
use dcm_redact::encoder::{encode, encode_raster};
use dcm_redact::error::{LoadError, SaveError};
use dcm_redact::geometry::RedactionRect;
use dcm_redact::loader::load;
use dcm_redact::source::RasterFormat;
use std::io::Cursor;

fn gray16_file(width: u32, height: u32, samples: Vec<u16>, format: image::ImageFormat) -> Vec<u8> {
    let buffer = image::ImageBuffer::<image::Luma<u16>, Vec<u16>>::from_raw(width, height, samples).unwrap();
    let mut out = Cursor::new(Vec::new());
    buffer.write_to(&mut out, format).unwrap();
    out.into_inner()
}

fn ramp(n: usize) -> Vec<u16> {
    (0..n).map(|i| ((i * 523 + 77) % 65536) as u16).collect()
}

fn generic_document(width: u32, height: u32, samples: Vec<u16>) -> OpenDocument {
    let canonical = CanonicalImage::from_samples(width, height, samples).unwrap();
    OpenDocument::from_image(canonical, "memory.png".to_string(), MAX_DISPLAY_DIM)
}

#[test]
fn sixteen_bit_png_loads_sample_for_sample() {
    let samples = ramp(20 * 10);
    let bytes = gray16_file(20, 10, samples.clone(), image::ImageFormat::Png);
    let doc = load("pictures/plate.png", &bytes, MAX_DISPLAY_DIM).unwrap();
    assert_eq!((doc.canonical().width(), doc.canonical().height()), (20, 10));
    assert_eq!(doc.canonical().samples(), &samples);
    assert!(!doc.metadata().is_dicom());
    assert_eq!(doc.path(), "pictures/plate.png");
    assert_eq!(doc.display_bound(), MAX_DISPLAY_DIM);
    assert_eq!(doc.display().rgba()[0], (samples[0] >> 8) as u8);
    assert_eq!(doc.display().rgba()[3], 255);
}

#[test]
fn sixteen_bit_tiff_loads_sample_for_sample() {
    let samples = ramp(7 * 5);
    let bytes = gray16_file(7, 5, samples.clone(), image::ImageFormat::Tiff);
    let doc = load("plate.TIF", &bytes, MAX_DISPLAY_DIM).unwrap();
    assert_eq!(doc.canonical().samples(), &samples);
}

#[test]
fn eight_bit_gray_is_widened_by_the_codec() {
    let buffer = image::ImageBuffer::<image::Luma<u8>, Vec<u8>>::from_raw(2, 2, vec![0x00, 0x01, 0x80, 0xff]).unwrap();
    let mut out = Cursor::new(Vec::new());
    buffer.write_to(&mut out, image::ImageFormat::Png).unwrap();
    let doc = load("gray.png", &out.into_inner(), MAX_DISPLAY_DIM).unwrap();
    assert_eq!(doc.canonical().samples(), &vec![0x0000, 0x0101, 0x8080, 0xffff]);
}

#[test]
fn colour_is_collapsed_to_gray_by_the_codec() {
    let rgb: Vec<u8> = vec![255, 255, 255, 0, 0, 0, 255, 0, 0, 0, 0, 255];
    let buffer = image::ImageBuffer::<image::Rgb<u8>, Vec<u8>>::from_raw(2, 2, rgb).unwrap();
    let expected = image::DynamicImage::ImageRgb8(buffer.clone()).into_luma16().into_raw();
    let mut out = Cursor::new(Vec::new());
    buffer.write_to(&mut out, image::ImageFormat::Png).unwrap();
    let doc = load("colour.png", &out.into_inner(), MAX_DISPLAY_DIM).unwrap();
    assert_eq!(doc.canonical().samples(), &expected);
    assert_eq!(doc.canonical().get(0, 0), Some(0xffff));
    assert_eq!(doc.canonical().get(1, 0), Some(0x0000));
    let red = doc.canonical().get(0, 1).unwrap();
    let blue = doc.canonical().get(1, 1).unwrap();
    assert!(blue < red && red < 0x8000);
}

#[test]
fn the_format_is_chosen_by_the_extension_not_the_content() {
    let bytes = gray16_file(4, 4, ramp(16), image::ImageFormat::Png);
    assert!(load("plate.png", &bytes, MAX_DISPLAY_DIM).is_ok());
    assert!(matches!(load("plate.tif", &bytes, MAX_DISPLAY_DIM), Err(LoadError::DecodeFailure(_))));
    assert!(load("plate.jpg", &bytes, MAX_DISPLAY_DIM).is_err());
    assert_eq!(load("plate", &bytes, MAX_DISPLAY_DIM).err(), Some(LoadError::UnsupportedFormat));
    assert_eq!(load("plate.gif", &bytes, MAX_DISPLAY_DIM).err(), Some(LoadError::UnsupportedFormat));
}

#[test]
fn bytes_that_are_no_image_are_a_decode_failure() {
    assert!(matches!(load("plate.png", b"no picture here", MAX_DISPLAY_DIM), Err(LoadError::DecodeFailure(_))));
    assert!(matches!(load("plate.png", b"", MAX_DISPLAY_DIM), Err(LoadError::DecodeFailure(_))));
}

fn tiff_entry(out: &mut Vec<u8>, tag: u16, kind: u16, value: u32) {
    out.extend_from_slice(&tag.to_le_bytes());
    out.extend_from_slice(&kind.to_le_bytes());
    out.extend_from_slice(&1u32.to_le_bytes());
    out.extend_from_slice(&value.to_le_bytes());
}

#[test]
fn a_layout_that_the_codec_does_not_support_is_an_unsupported_format() {
    // a TIFF file of one gray pixel of 32 bits, a depth that the codec reads but
    // makes no image of
    let mut bytes: Vec<u8> = Vec::new();
    bytes.extend_from_slice(b"II*\0");
    bytes.extend_from_slice(&8u32.to_le_bytes());
    bytes.extend_from_slice(&9u16.to_le_bytes());
    tiff_entry(&mut bytes, 256, 3, 1);
    tiff_entry(&mut bytes, 257, 3, 1);
    tiff_entry(&mut bytes, 258, 3, 32);
    tiff_entry(&mut bytes, 259, 3, 1);
    tiff_entry(&mut bytes, 262, 3, 1);
    tiff_entry(&mut bytes, 273, 4, 122);
    tiff_entry(&mut bytes, 277, 3, 1);
    tiff_entry(&mut bytes, 278, 3, 1);
    tiff_entry(&mut bytes, 279, 4, 4);
    bytes.extend_from_slice(&0u32.to_le_bytes());
    assert_eq!(bytes.len(), 122);
    bytes.extend_from_slice(&[1, 2, 3, 4]);
    assert_eq!(load("deep.tif", &bytes, MAX_DISPLAY_DIM).err(), Some(LoadError::UnsupportedFormat));
}

#[test]
fn redacted_png_reloads_with_the_rectangle_black() {
    let samples = ramp(12 * 8);
    let bytes = gray16_file(12, 8, samples.clone(), image::ImageFormat::Png);
    let mut doc = load("plate.png", &bytes, MAX_DISPLAY_DIM).unwrap();
    doc.redact(RedactionRect::new(2, 1, 5, 4));
    let saved = encode(&doc, "out/plate.png").unwrap();
    assert_eq!(&saved[..8], b"\x89PNG\r\n\x1a\n");
    let again = load("out/plate.png", &saved, MAX_DISPLAY_DIM).unwrap();
    for y in 0..8u32 {
        for x in 0..12u32 {
            let inside = (2..5).contains(&x) && (1..4).contains(&y);
            let expected = if inside { 0 } else { samples[(y * 12 + x) as usize] };
            assert_eq!(again.canonical().get(x, y), Some(expected));
        }
    }
}

#[test]
fn a_raster_document_is_saved_in_the_format_of_the_output_path() {
    let samples = ramp(6 * 6);
    let doc = generic_document(6, 6, samples.clone());
    let tiff = encode(&doc, "plate.tiff").unwrap();
    assert!(&tiff[..4] == b"II*\0" || &tiff[..4] == b"MM\0*");
    let decoded = image::load_from_memory_with_format(&tiff, image::ImageFormat::Tiff).unwrap();
    assert_eq!(decoded.color(), image::ColorType::L16);
    assert_eq!(decoded.into_luma16().into_raw(), samples);
    let png = encode(&doc, "plate.PNG").unwrap();
    let decoded = image::load_from_memory_with_format(&png, image::ImageFormat::Png).unwrap();
    assert_eq!(decoded.color(), image::ColorType::L16);
    assert_eq!(decoded.into_luma16().into_raw(), samples);
}

#[test]
fn jpeg_gets_the_high_byte_of_each_sample() {
    let doc = generic_document(16, 16, vec![0x8040; 256]);
    let jpeg = encode(&doc, "plate.jpg").unwrap();
    assert_eq!(&jpeg[..3], &[0xff, 0xd8, 0xff]);
    let decoded = image::load_from_memory_with_format(&jpeg, image::ImageFormat::Jpeg).unwrap();
    assert_eq!((decoded.width(), decoded.height()), (16, 16));
    assert_eq!(decoded.color(), image::ColorType::L8);
    for v in decoded.into_luma8().into_raw() {
        assert!((0x7e..=0x82).contains(&v), "{}", v);
    }
}

#[test]
fn encode_raster_tells_the_depth_by_the_format() {
    let samples: Vec<u16> = vec![0x1234, 0xabcd, 0x0000, 0xffff];
    let img = CanonicalImage::from_samples(2, 2, samples.clone()).unwrap();
    let png = encode_raster(&img, RasterFormat::Png).unwrap();
    let decoded = image::load_from_memory_with_format(&png, image::ImageFormat::Png).unwrap();
    assert_eq!(decoded.into_luma16().into_raw(), samples);
    let jpeg = encode_raster(&img, RasterFormat::Jpeg).unwrap();
    let decoded = image::load_from_memory_with_format(&jpeg, image::ImageFormat::Jpeg).unwrap();
    assert_eq!(decoded.color(), image::ColorType::L8);
}

#[test]
fn a_raster_document_cannot_be_saved_under_another_kind_of_path() {
    let doc = generic_document(2, 2, vec![1, 2, 3, 4]);
    assert!(matches!(encode(&doc, "plate.dcm"), Err(SaveError::EncodeFailure(_))));
    assert!(matches!(encode(&doc, "plate.bmp"), Err(SaveError::EncodeFailure(_))));
    assert!(matches!(encode(&doc, "plate"), Err(SaveError::EncodeFailure(_))));
}

#[test]
fn an_image_without_pixels_is_not_encoded() {
    let doc = generic_document(0, 0, vec![]);
    assert!(matches!(encode(&doc, "plate.png"), Err(SaveError::EncodeFailure(_))));
    let flat = CanonicalImage::from_samples(0, 3, vec![]).unwrap();
    assert!(matches!(encode_raster(&flat, RasterFormat::Tiff), Err(SaveError::EncodeFailure(_))));
}

#[test]
fn reprojecting_changes_the_display_and_nothing_else() {
    let samples = ramp(40 * 20);
    let mut doc = generic_document(40, 20, samples.clone());
    assert_eq!((doc.display().width(), doc.display().height()), (40, 20));
    doc.reproject(8);
    assert_eq!(doc.display_bound(), 8);
    assert_eq!((doc.display().width(), doc.display().height()), (8, 4));
    assert_eq!(doc.canonical().samples(), &samples);
    assert_eq!(doc.path(), "memory.png");
    // a redaction keeps the bound
    doc.redact(RedactionRect::new(0, 0, 40, 20));
    assert_eq!(doc.display_bound(), 8);
    assert_eq!(doc.display().rgba(), &[0u8, 0, 0, 255].repeat(32));
}

#[test]
fn save_errors_say_what_went_wrong() {
    assert_eq!(SaveError::IoError.message(), "the file could not be written");
    assert_eq!(SaveError::EncodeFailure("no room".to_string()).message(), "encoding failed: no room");
}
