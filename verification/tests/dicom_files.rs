use dcm_redact::display::MAX_DISPLAY_DIM;
use dcm_redact::document::FormatMetadata;
use dcm_redact::encoder::encode;
use dcm_redact::error::LoadError;
use dcm_redact::loader::load;
use dcm_redact::metadata::{DicomTag, Photometric};
use dcm_redact::session::Session;
use dcm_redact::geometry::{DisplayPoint, DisplayRect};
use dicom::dictionary_std::tags;
use dicom::object::{FileMetaTableBuilder, InMemDicomObject};

type Element = dicom::core::DataElement<InMemDicomObject>;
type Value = dicom::core::PrimitiveValue;
type Vr = dicom::core::VR;

struct Recipe {
    columns: u16,
    rows: u16,
    photometric: Option<&'static str>,
    bits_allocated: Option<u16>,
    bits_stored: u16,
    high_bit: u16,
    samples_per_pixel: u16,
    frames: Option<&'static str>,
    words: Vec<u16>,
}

fn plain_recipe(columns: u16, rows: u16, photometric: &'static str, bits_stored: u16, words: Vec<u16>) -> Recipe {
    Recipe {
        columns,
        rows,
        photometric: Some(photometric),
        bits_allocated: Some(16),
        bits_stored,
        high_bit: bits_stored - 1,
        samples_per_pixel: 1,
        frames: None,
        words,
    }
}

fn us(tag: dicom::core::Tag, v: u16) -> Element {
    Element::new(tag, Vr::US, Value::from(v))
}

fn dicom_bytes(recipe: &Recipe) -> Vec<u8> {
    let mut obj = InMemDicomObject::new_empty();
    obj.put(Element::new(tags::SOP_CLASS_UID, Vr::UI, Value::from("1.2.840.10008.5.1.4.1.1.7")));
    obj.put(Element::new(tags::SOP_INSTANCE_UID, Vr::UI, Value::from("1.2.826.0.1.3680043.2.1.1")));
    obj.put(Element::new(tags::PATIENT_NAME, Vr::PN, Value::from("Doe^Jane")));
    obj.put(Element::new(tags::RESCALE_SLOPE, Vr::DS, Value::from("2")));
    obj.put(us(tags::SAMPLES_PER_PIXEL, recipe.samples_per_pixel));
    if let Some(p) = recipe.photometric {
        obj.put(Element::new(tags::PHOTOMETRIC_INTERPRETATION, Vr::CS, Value::from(p)));
    }
    if let Some(f) = recipe.frames {
        obj.put(Element::new(tags::NUMBER_OF_FRAMES, Vr::IS, Value::from(f)));
    }
    obj.put(us(tags::ROWS, recipe.rows));
    obj.put(us(tags::COLUMNS, recipe.columns));
    if let Some(b) = recipe.bits_allocated {
        obj.put(us(tags::BITS_ALLOCATED, b));
    }
    obj.put(us(tags::BITS_STORED, recipe.bits_stored));
    obj.put(us(tags::HIGH_BIT, recipe.high_bit));
    obj.put(us(tags::PIXEL_REPRESENTATION, 0));
    obj.put(Element::new(tags::PIXEL_DATA, Vr::OW, Value::U16(recipe.words.clone().into())));
    let file = obj
        .with_meta(
            FileMetaTableBuilder::new()
                .transfer_syntax("1.2.840.10008.1.2.1")
                .media_storage_sop_class_uid("1.2.840.10008.5.1.4.1.1.7")
                .media_storage_sop_instance_uid("1.2.826.0.1.3680043.2.1.1"),
        )
        .unwrap();
    let mut out: Vec<u8> = Vec::new();
    file.write_all(&mut out).unwrap();
    out
}

fn ramp_words(n: usize, top: u16) -> Vec<u16> {
    (0..n).map(|i| ((i * 37 + 5) % (top as usize + 1)) as u16).collect()
}

#[test]
fn sixteen_bit_file_loads_sample_for_sample() {
    let words = ramp_words(100 * 50, 0xffff);
    let bytes = dicom_bytes(&plain_recipe(100, 50, "MONOCHROME2", 16, words.clone()));
    let doc = load("study/scan.dcm", &bytes, MAX_DISPLAY_DIM).unwrap();
    assert_eq!(doc.canonical().width(), 100);
    assert_eq!(doc.canonical().height(), 50);
    assert_eq!(doc.canonical().samples(), &words);
    assert_eq!(doc.path(), "study/scan.dcm");
    assert!(doc.metadata().is_dicom());
    match doc.metadata() {
        FormatMetadata::Dicom { bits_allocated, bits_stored, photometric_interpretation, .. } => {
            assert_eq!((*bits_allocated, *bits_stored), (16, 16));
            assert_eq!(*photometric_interpretation, Photometric::Monochrome2);
        }
        FormatMetadata::Generic => panic!("a DICOM file gave generic metadata"),
    }
    assert_eq!((doc.display().width(), doc.display().height()), (100, 50));
    assert_eq!(doc.display().rgba()[0], (words[0] >> 8) as u8);
}

#[test]
fn redacted_file_reloads_with_the_rectangle_black_and_the_rest_as_it_was() {
    let words = ramp_words(100 * 50, 0xffff);
    let bytes = dicom_bytes(&plain_recipe(100, 50, "MONOCHROME2", 16, words.clone()));
    let mut session = Session::new();
    session.open_document("scan.dcm", &bytes).unwrap();
    // the image is rendered pixel for pixel at (0, 0); the drag runs from pixel
    // (10, 10) to pixel (29, 19), which is the rectangle (10,10)-(30,20)
    let view = DisplayRect { left: 0, top: 0, width: 100, height: 50 };
    session.redact(DisplayPoint { x: 10, y: 10 }, DisplayPoint { x: 29, y: 19 }, view);
    let saved = session.save("out/scan.dcm").unwrap();
    let again = load("out/scan.dcm", &saved, MAX_DISPLAY_DIM).unwrap();
    assert_eq!((again.canonical().width(), again.canonical().height()), (100, 50));
    for y in 0..50u32 {
        for x in 0..100u32 {
            let inside = (10..30).contains(&x) && (10..20).contains(&y);
            let expected = if inside { 0 } else { words[(y * 100 + x) as usize] };
            assert_eq!(again.canonical().get(x, y), Some(expected), "at ({}, {})", x, y);
        }
    }
}

#[test]
fn monochrome1_is_inverted_on_screen_only() {
    let words = ramp_words(100 * 50, 0xffff);
    let bytes = dicom_bytes(&plain_recipe(100, 50, "MONOCHROME1", 16, words.clone()));
    let doc = load("scan.dcm", &bytes, MAX_DISPLAY_DIM).unwrap();
    assert_eq!(doc.canonical().samples(), &words);
    let origin = doc.canonical().get(0, 0).unwrap();
    assert_eq!(doc.display().rgba()[0], 255 - (origin >> 8) as u8);
    assert_eq!(doc.display().rgba()[3], 255);
    let at = 4 * (7 * 100 + 42) as usize;
    assert_eq!(doc.display().rgba()[at], 255 - (words[7 * 100 + 42] >> 8) as u8);
    match doc.metadata() {
        FormatMetadata::Dicom { photometric_interpretation, .. } => {
            assert_eq!(*photometric_interpretation, Photometric::Monochrome1)
        }
        FormatMetadata::Generic => panic!("a DICOM file gave generic metadata"),
    }
}

#[test]
fn twelve_bit_samples_are_left_justified_on_load() {
    let words: Vec<u16> = vec![0x0000, 0x0001, 0x0800, 0x0fff, 0x0abc, 0x0123];
    let bytes = dicom_bytes(&plain_recipe(3, 2, "MONOCHROME2", 12, words));
    let doc = load("ct.dcm", &bytes, MAX_DISPLAY_DIM).unwrap();
    assert_eq!(doc.canonical().samples(), &vec![0x0000, 0x0010, 0x8000, 0xfff0, 0xabc0, 0x1230]);
    assert_eq!(doc.display().rgba()[4 * 3], 0xff);
}

#[test]
fn twelve_bits_allocated_are_read_as_words() {
    let mut recipe = plain_recipe(2, 2, "MONOCHROME2", 12, vec![0x0fff, 0x0000, 0x0010, 0x0800]);
    recipe.bits_allocated = Some(12);
    let doc = load("ct.dcm", &dicom_bytes(&recipe), MAX_DISPLAY_DIM).unwrap();
    assert_eq!(doc.canonical().samples(), &vec![0xfff0, 0x0000, 0x0100, 0x8000]);
    match doc.metadata() {
        FormatMetadata::Dicom { bits_allocated, bits_stored, .. } => {
            assert_eq!((*bits_allocated, *bits_stored), (12, 12))
        }
        FormatMetadata::Generic => panic!("a DICOM file gave generic metadata"),
    }
}

#[test]
fn saved_file_declares_the_depth_of_the_words_it_holds() {
    let words: Vec<u16> = vec![0x0000, 0x0001, 0x0800, 0x0fff, 0x0abc, 0x0123];
    let bytes = dicom_bytes(&plain_recipe(3, 2, "MONOCHROME1", 12, words.clone()));
    let mut session = Session::new();
    session.open_document("ct.dcm", &bytes).unwrap();
    let view = DisplayRect { left: 0, top: 0, width: 3, height: 2 };
    session.redact(DisplayPoint { x: 1, y: 1 }, DisplayPoint { x: 1, y: 1 }, view);
    let saved = session.save("ct_out.dcm").unwrap();

    assert_eq!(&saved[..128], &[0u8; 128][..]);
    assert_eq!(&saved[128..132], b"DICM");
    let written = dicom::object::from_reader(&saved[..]).unwrap();
    assert_eq!(written.element(tags::BITS_ALLOCATED).unwrap().to_int::<u16>().unwrap(), 16);
    assert_eq!(written.element(tags::BITS_STORED).unwrap().to_int::<u16>().unwrap(), 12);
    assert_eq!(written.element(tags::HIGH_BIT).unwrap().to_int::<u16>().unwrap(), 11);
    assert_eq!(written.element(tags::PIXEL_REPRESENTATION).unwrap().to_int::<u16>().unwrap(), 0);
    assert_eq!(written.element(tags::PHOTOMETRIC_INTERPRETATION).unwrap().to_str().unwrap(), "MONOCHROME1");
    assert_eq!(written.element(tags::PATIENT_NAME).unwrap().to_str().unwrap(), "Doe^Jane");
    assert_eq!(written.element(tags::RESCALE_SLOPE).unwrap().to_str().unwrap(), "2");
    assert_eq!(written.element(tags::ROWS).unwrap().to_int::<u16>().unwrap(), 2);
    assert_eq!(written.element(tags::COLUMNS).unwrap().to_int::<u16>().unwrap(), 3);
    let pixels: Vec<u16> = written.element(tags::PIXEL_DATA).unwrap().to_multi_int::<u16>().unwrap();
    assert_eq!(pixels, vec![0x0000, 0x0001, 0x0800, 0x0fff, 0x0000, 0x0123]);
    assert!(pixels.iter().all(|w| *w < (1 << 12)));
}

#[test]
fn a_save_does_not_change_the_open_document() {
    let words = ramp_words(6 * 4, 0x0fff);
    let bytes = dicom_bytes(&plain_recipe(6, 4, "MONOCHROME2", 12, words));
    let doc = load("ct.dcm", &bytes, MAX_DISPLAY_DIM).unwrap();
    let samples_before = doc.canonical().samples().clone();
    let display_before = doc.display().rgba().clone();
    let first = encode(&doc, "a.dcm").unwrap();
    assert_eq!(doc.canonical().samples(), &samples_before);
    assert_eq!(doc.display().rgba(), &display_before);
    let second = encode(&doc, "b.dcm").unwrap();
    assert_eq!(first, second);
    // the container that the document holds still declares what was loaded
    let reloaded = load("ct.dcm", &first, MAX_DISPLAY_DIM).unwrap();
    assert_eq!(reloaded.canonical().samples(), &samples_before);
}

#[test]
fn a_dicom_document_is_saved_as_dicom_whatever_the_output_path() {
    let bytes = dicom_bytes(&plain_recipe(2, 2, "MONOCHROME2", 16, vec![1, 2, 3, 4]));
    let doc = load("scan.dcm", &bytes, MAX_DISPLAY_DIM).unwrap();
    let saved = encode(&doc, "picture.png").unwrap();
    assert_eq!(&saved[128..132], b"DICM");
}

#[test]
fn eight_bits_allocated_are_an_invalid_tag_value() {
    let mut recipe = plain_recipe(2, 2, "MONOCHROME2", 8, vec![1, 2]);
    recipe.bits_allocated = Some(8);
    assert_eq!(
        load("scan.dcm", &dicom_bytes(&recipe), MAX_DISPLAY_DIM).err(),
        Some(LoadError::InvalidTagValue(DicomTag::BitsAllocated))
    );
}

#[test]
fn rgb_is_an_invalid_tag_value() {
    let mut recipe = plain_recipe(2, 2, "RGB", 16, vec![1, 2, 3, 4]);
    recipe.samples_per_pixel = 3;
    assert_eq!(
        load("scan.dcm", &dicom_bytes(&recipe), MAX_DISPLAY_DIM).err(),
        Some(LoadError::InvalidTagValue(DicomTag::PhotometricInterpretation))
    );
}

#[test]
fn a_missing_tag_is_a_missing_tag() {
    let mut no_bits = plain_recipe(2, 2, "MONOCHROME2", 16, vec![1, 2, 3, 4]);
    no_bits.bits_allocated = None;
    assert_eq!(
        load("scan.dcm", &dicom_bytes(&no_bits), MAX_DISPLAY_DIM).err(),
        Some(LoadError::MissingTag(DicomTag::BitsAllocated))
    );
    let mut no_photometric = plain_recipe(2, 2, "MONOCHROME2", 16, vec![1, 2, 3, 4]);
    no_photometric.photometric = None;
    assert_eq!(
        load("scan.dcm", &dicom_bytes(&no_photometric), MAX_DISPLAY_DIM).err(),
        Some(LoadError::MissingTag(DicomTag::PhotometricInterpretation))
    );
}

#[test]
fn bits_stored_beyond_bits_allocated_are_an_invalid_tag_value() {
    let mut recipe = plain_recipe(2, 2, "MONOCHROME2", 12, vec![1, 2, 3, 4]);
    recipe.bits_allocated = Some(12);
    recipe.bits_stored = 16;
    recipe.high_bit = 15;
    assert_eq!(
        load("scan.dcm", &dicom_bytes(&recipe), MAX_DISPLAY_DIM).err(),
        Some(LoadError::InvalidTagValue(DicomTag::BitsStored))
    );
}

#[test]
fn bytes_that_are_no_dicom_file_are_a_decode_failure() {
    let r = load("scan.dcm", b"this is no DICOM file at all, not even close", MAX_DISPLAY_DIM);
    assert!(matches!(r, Err(LoadError::DecodeFailure(_))));
    let empty = load("scan.dcm", b"", MAX_DISPLAY_DIM);
    assert!(matches!(empty, Err(LoadError::DecodeFailure(_))));
}

#[test]
fn pixel_data_that_is_too_short_is_a_decode_failure() {
    let recipe = plain_recipe(4, 4, "MONOCHROME2", 16, vec![1, 2, 3, 4, 5]);
    let r = load("scan.dcm", &dicom_bytes(&recipe), MAX_DISPLAY_DIM);
    assert!(matches!(r, Err(LoadError::DecodeFailure(_))));
    let long = plain_recipe(2, 2, "MONOCHROME2", 16, vec![1, 2, 3, 4, 5, 6]);
    let r = load("scan.dcm", &dicom_bytes(&long), MAX_DISPLAY_DIM);
    assert!(matches!(r, Err(LoadError::DecodeFailure(_))));
}

#[test]
fn layouts_that_are_not_one_gray_frame_are_not_supported() {
    let mut two_frames = plain_recipe(2, 2, "MONOCHROME2", 16, vec![1, 2, 3, 4, 5, 6, 7, 8]);
    two_frames.frames = Some("2");
    assert_eq!(
        load("scan.dcm", &dicom_bytes(&two_frames), MAX_DISPLAY_DIM).err(),
        Some(LoadError::UnsupportedFormat)
    );
    let mut three_samples = plain_recipe(2, 2, "MONOCHROME2", 16, vec![0; 12]);
    three_samples.samples_per_pixel = 3;
    assert_eq!(
        load("scan.dcm", &dicom_bytes(&three_samples), MAX_DISPLAY_DIM).err(),
        Some(LoadError::UnsupportedFormat)
    );
    let mut high_bits = plain_recipe(2, 2, "MONOCHROME2", 12, vec![1, 2, 3, 4]);
    high_bits.high_bit = 15;
    assert_eq!(
        load("scan.dcm", &dicom_bytes(&high_bits), MAX_DISPLAY_DIM).err(),
        Some(LoadError::UnsupportedFormat)
    );
}

#[test]
fn a_dicom_file_under_another_extension_is_not_read_as_dicom() {
    let bytes = dicom_bytes(&plain_recipe(2, 2, "MONOCHROME2", 16, vec![1, 2, 3, 4]));
    assert_eq!(load("scan.bin", &bytes, MAX_DISPLAY_DIM).err(), Some(LoadError::UnsupportedFormat));
    assert!(load("scan.png", &bytes, MAX_DISPLAY_DIM).is_err());
    assert!(load("scan.DCM", &bytes, MAX_DISPLAY_DIM).is_ok());
}
