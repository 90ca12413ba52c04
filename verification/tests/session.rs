use dcm_redact::display::MAX_DISPLAY_DIM;
use dcm_redact::error::{LoadError, SaveError};
use dcm_redact::geometry::{DisplayPoint, DisplayRect, PixelPos};
use dcm_redact::metadata::DicomTag;
use dcm_redact::session::Session;
use dicom::dictionary_std::tags;
use dicom::object::{FileMetaTableBuilder, InMemDicomObject};
use std::io::Cursor;

type Element = dicom::core::DataElement<InMemDicomObject>;
type Value = dicom::core::PrimitiveValue;
type Vr = dicom::core::VR;

fn session_dicom(columns: u16, rows: u16, bits_allocated: u16, photometric: &str, words: Vec<u16>) -> Vec<u8> {
    let mut obj = InMemDicomObject::new_empty();
    obj.put(Element::new(tags::SOP_CLASS_UID, Vr::UI, Value::from("1.2.840.10008.5.1.4.1.1.7")));
    obj.put(Element::new(tags::SOP_INSTANCE_UID, Vr::UI, Value::from("1.2.826.0.1.3680043.2.1.2")));
    obj.put(Element::new(tags::SAMPLES_PER_PIXEL, Vr::US, Value::from(1u16)));
    obj.put(Element::new(tags::PHOTOMETRIC_INTERPRETATION, Vr::CS, Value::from(photometric)));
    obj.put(Element::new(tags::ROWS, Vr::US, Value::from(rows)));
    obj.put(Element::new(tags::COLUMNS, Vr::US, Value::from(columns)));
    obj.put(Element::new(tags::BITS_ALLOCATED, Vr::US, Value::from(bits_allocated)));
    obj.put(Element::new(tags::BITS_STORED, Vr::US, Value::from(bits_allocated)));
    obj.put(Element::new(tags::HIGH_BIT, Vr::US, Value::from(bits_allocated - 1)));
    obj.put(Element::new(tags::PIXEL_REPRESENTATION, Vr::US, Value::from(0u16)));
    obj.put(Element::new(tags::PIXEL_DATA, Vr::OW, Value::U16(words.into())));
    let file = obj
        .with_meta(
            FileMetaTableBuilder::new()
                .transfer_syntax("1.2.840.10008.1.2.1")
                .media_storage_sop_class_uid("1.2.840.10008.5.1.4.1.1.7")
                .media_storage_sop_instance_uid("1.2.826.0.1.3680043.2.1.2"),
        )
        .unwrap();
    let mut out: Vec<u8> = Vec::new();
    file.write_all(&mut out).unwrap();
    out
}

fn session_png(width: u32, height: u32, samples: Vec<u16>) -> Vec<u8> {
    let buffer = image::ImageBuffer::<image::Luma<u16>, Vec<u16>>::from_raw(width, height, samples).unwrap();
    let mut out = Cursor::new(Vec::new());
    buffer.write_to(&mut out, image::ImageFormat::Png).unwrap();
    out.into_inner()
}

fn session_words(n: usize) -> Vec<u16> {
    (0..n).map(|i| ((i * 101 + 9) % 65536) as u16).collect()
}

struct Snapshot {
    path: String,
    samples: Vec<u16>,
    display: Vec<u8>,
    is_dicom: bool,
    bound: u32,
}

fn snapshot(session: &Session) -> Option<Snapshot> {
    session.document().map(|doc| Snapshot {
        path: doc.path().clone(),
        samples: doc.canonical().samples().clone(),
        display: doc.display().rgba().clone(),
        is_dicom: doc.metadata().is_dicom(),
        bound: session.display_bound(),
    })
}

fn same(a: &Snapshot, b: &Snapshot) -> bool {
    a.path == b.path && a.samples == b.samples && a.display == b.display && a.is_dicom == b.is_dicom && a.bound == b.bound
}

#[test]
fn a_new_session_holds_no_document() {
    let session = Session::new();
    assert!(session.document().is_none());
    assert!(session.current_display().is_none());
    assert!(session.source_path().is_none());
    assert_eq!(session.display_bound(), MAX_DISPLAY_DIM);
    let view = DisplayRect { left: 0, top: 0, width: 10, height: 10 };
    assert_eq!(session.to_canonical(view, DisplayPoint { x: 1, y: 1 }), None);
}

#[test]
fn opening_replaces_what_was_open() {
    let mut session = Session::new();
    session.open_document("a.dcm", &session_dicom(4, 3, 16, "MONOCHROME2", session_words(12))).unwrap();
    assert_eq!(session.source_path().unwrap(), "a.dcm");
    assert!(session.document().unwrap().metadata().is_dicom());
    session.open_document("b.png", &session_png(2, 2, vec![1, 2, 3, 4])).unwrap();
    let doc = session.document().unwrap();
    assert_eq!(doc.path(), "b.png");
    assert!(!doc.metadata().is_dicom());
    assert_eq!(doc.canonical().samples(), &vec![1, 2, 3, 4]);
    assert_eq!(session.current_display().unwrap().rgba().len(), 16);
}

#[test]
fn a_failed_load_leaves_the_open_document_as_it_was() {
    let mut session = Session::new();
    session.open_document("first.dcm", &session_dicom(5, 4, 16, "MONOCHROME1", session_words(20))).unwrap();
    let view = DisplayRect { left: 0, top: 0, width: 5, height: 4 };
    session.redact(DisplayPoint { x: 1, y: 1 }, DisplayPoint { x: 2, y: 2 }, view);
    let before = snapshot(&session).unwrap();

    let eight_bits = session_dicom(2, 2, 8, "MONOCHROME2", vec![1, 2]);
    assert_eq!(
        session.open_document("second.dcm", &eight_bits),
        Err(LoadError::InvalidTagValue(DicomTag::BitsAllocated))
    );
    assert!(same(&before, &snapshot(&session).unwrap()));

    let rgb = session_dicom(2, 2, 16, "RGB", vec![1, 2, 3, 4]);
    assert_eq!(
        session.open_document("third.dcm", &rgb),
        Err(LoadError::InvalidTagValue(DicomTag::PhotometricInterpretation))
    );
    assert!(same(&before, &snapshot(&session).unwrap()));

    assert!(matches!(session.open_document("fourth.dcm", b"rubbish"), Err(LoadError::DecodeFailure(_))));
    assert!(same(&before, &snapshot(&session).unwrap()));

    assert!(matches!(session.open_document("fifth.png", b"rubbish"), Err(LoadError::DecodeFailure(_))));
    assert!(same(&before, &snapshot(&session).unwrap()));

    assert_eq!(session.open_document("sixth.xyz", b"rubbish"), Err(LoadError::UnsupportedFormat));
    assert!(same(&before, &snapshot(&session).unwrap()));

    assert!(session.reset(b"rubbish").is_err());
    assert!(same(&before, &snapshot(&session).unwrap()));
}

#[test]
fn a_failed_load_into_an_empty_session_leaves_it_empty() {
    let mut session = Session::new();
    assert!(session.open_document("a.dcm", b"rubbish").is_err());
    assert!(session.document().is_none());
}

#[test]
fn redact_blackens_between_the_two_points_and_refreshes_the_display() {
    let words = session_words(100 * 50);
    let mut session = Session::new();
    session.open_document("scan.dcm", &session_dicom(100, 50, 16, "MONOCHROME2", words.clone())).unwrap();
    // rendered three times as large at (40, 25)
    let view = DisplayRect { left: 40, top: 25, width: 300, height: 150 };
    assert_eq!(session.to_canonical(view, DisplayPoint { x: 70, y: 55 }), Some(PixelPos { x: 10, y: 10 }));
    assert_eq!(session.to_canonical(view, DisplayPoint { x: 129, y: 84 }), Some(PixelPos { x: 29, y: 19 }));
    // dragged from the lower right to the upper left
    session.redact(DisplayPoint { x: 129, y: 84 }, DisplayPoint { x: 70, y: 55 }, view);
    let doc = session.document().unwrap();
    for y in 0..50u32 {
        for x in 0..100u32 {
            let inside = (10..30).contains(&x) && (10..20).contains(&y);
            let expected = if inside { 0 } else { words[(y * 100 + x) as usize] };
            assert_eq!(doc.canonical().get(x, y), Some(expected));
            let at = 4 * (y * 100 + x) as usize;
            assert_eq!(doc.display().rgba()[at], (expected >> 8) as u8);
        }
    }
}

#[test]
fn a_redacted_pixel_of_an_inverted_image_is_shown_at_full_intensity() {
    let mut session = Session::new();
    session.open_document("scan.dcm", &session_dicom(2, 2, 16, "MONOCHROME1", vec![0x1000, 0x2000, 0x3000, 0x4000])).unwrap();
    let view = DisplayRect { left: 0, top: 0, width: 2, height: 2 };
    session.redact(DisplayPoint { x: 0, y: 0 }, DisplayPoint { x: 0, y: 0 }, view);
    let doc = session.document().unwrap();
    assert_eq!(doc.canonical().samples(), &vec![0, 0x2000, 0x3000, 0x4000]);
    assert_eq!(&doc.display().rgba()[..8], &[255, 255, 255, 255, 255 - 0x20, 255 - 0x20, 255 - 0x20, 255]);
}

#[test]
fn a_drag_that_starts_or_ends_outside_changes_nothing() {
    let mut session = Session::new();
    session.open_document("scan.png", &session_png(10, 10, session_words(100))).unwrap();
    let before = snapshot(&session).unwrap();
    let view = DisplayRect { left: 0, top: 0, width: 100, height: 100 };
    session.redact(DisplayPoint { x: -1, y: 5 }, DisplayPoint { x: 50, y: 50 }, view);
    session.redact(DisplayPoint { x: 50, y: 50 }, DisplayPoint { x: 50, y: 101 }, view);
    assert!(same(&before, &snapshot(&session).unwrap()));
}

#[test]
fn redact_without_a_document_is_no_error() {
    let mut session = Session::new();
    let view = DisplayRect { left: 0, top: 0, width: 100, height: 100 };
    session.redact(DisplayPoint { x: 1, y: 1 }, DisplayPoint { x: 5, y: 5 }, view);
    assert!(session.document().is_none());
}

#[test]
fn reset_goes_back_to_the_loaded_image() {
    let words = session_words(30);
    let bytes = session_dicom(6, 5, 16, "MONOCHROME2", words.clone());
    let mut session = Session::new();
    session.open_document("scan.dcm", &bytes).unwrap();
    let view = DisplayRect { left: 0, top: 0, width: 6, height: 5 };
    session.redact(DisplayPoint { x: 0, y: 0 }, DisplayPoint { x: 5, y: 4 }, view);
    assert_eq!(session.document().unwrap().canonical().samples(), &vec![0u16; 30]);
    session.reset(&bytes).unwrap();
    let doc = session.document().unwrap();
    assert_eq!(doc.canonical().samples(), &words);
    assert_eq!(doc.path(), "scan.dcm");
}

#[test]
fn reset_without_a_document_is_an_io_error() {
    let mut session = Session::new();
    assert_eq!(session.reset(b"whatever"), Err(LoadError::IoError));
    assert!(session.document().is_none());
}

#[test]
fn save_without_a_document_is_an_encode_failure() {
    let session = Session::new();
    assert!(matches!(session.save("out.dcm"), Err(SaveError::EncodeFailure(_))));
}

#[test]
fn save_gives_the_bytes_of_the_kind_that_was_loaded() {
    let mut session = Session::new();
    session.open_document("scan.dcm", &session_dicom(2, 2, 16, "MONOCHROME2", vec![1, 2, 3, 4])).unwrap();
    let saved = session.save("anything.dcm").unwrap();
    assert_eq!(&saved[128..132], b"DICM");
    session.open_document("plate.png", &session_png(2, 2, vec![1, 2, 3, 4])).unwrap();
    let saved = session.save("plate_out.png").unwrap();
    assert_eq!(&saved[..8], b"\x89PNG\r\n\x1a\n");
    assert!(matches!(session.save("plate_out.dcm"), Err(SaveError::EncodeFailure(_))));
}

#[test]
fn changing_the_bound_projects_the_display_anew() {
    let mut session = Session::new();
    session.open_document("plate.png", &session_png(40, 20, session_words(800))).unwrap();
    assert_eq!(
        (session.current_display().unwrap().width(), session.current_display().unwrap().height()),
        (40, 20)
    );
    session.set_display_bound(10);
    assert_eq!(session.display_bound(), 10);
    let shown = session.current_display().unwrap();
    assert_eq!((shown.width(), shown.height()), (10, 5));
    assert_eq!((shown.scale_numerator(), shown.scale_denominator()), (10, 40));
    assert_eq!(session.document().unwrap().canonical().samples(), &session_words(800));
    // a document opened afterwards is shown under the new bound too
    session.open_document("other.png", &session_png(20, 40, session_words(800))).unwrap();
    let shown = session.current_display().unwrap();
    assert_eq!((shown.width(), shown.height()), (5, 10));
}
