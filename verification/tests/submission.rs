use std::io::Cursor;

use image::codecs::jpeg::JpegDecoder;
use image::{DynamicImage, ImageDecoder, ImageFormat, RgbImage};
use quotewall::{
    jpeg_header_verdict, validate_jpeg, validate_submission, ApiError, CheckedJpeg, ErrorStatus,
    FieldPlan, SubmissionForm, SubmissionPayload, SubmissionType,
};

/// Runs the decoder as the server does and lets the library decide.
fn check(bytes: Vec<u8>) -> Result<CheckedJpeg, ApiError> {
    let decoder = JpegDecoder::new(Cursor::new(bytes.as_slice())).ok();
    let header = decoder.as_ref().map(|decoder| {
        let (width, height) = decoder.dimensions();
        (width, height, decoder.total_bytes())
    });
    let decoded = match (jpeg_header_verdict(header), decoder) {
        (Ok(size), Some(decoder)) => {
            let mut buffer = vec![0; size];
            decoder.read_image(&mut buffer).is_ok()
        }
        _ => false,
    };
    validate_jpeg(bytes, header, decoded)
}

fn payload(message: &str, author: Option<&str>) -> SubmissionPayload {
    SubmissionPayload {
        message: message.to_owned(),
        author: author.map(str::to_owned),
        submission_type: SubmissionType::Quote,
    }
}

fn jpeg(width: u32, height: u32) -> Vec<u8> {
    let mut out = Cursor::new(Vec::new());
    DynamicImage::ImageRgb8(RgbImage::new(width, height))
        .write_to(&mut out, ImageFormat::Jpeg)
        .unwrap();
    out.into_inner()
}

#[test]
fn valid_submissions() {
    assert_eq!(validate_submission(&payload("Hello", Some("Ada"))), Ok(()));
    assert_eq!(validate_submission(&payload("Hello", None)), Ok(()));
    assert_eq!(validate_submission(&payload(&"x".repeat(500), Some(&"y".repeat(50)))), Ok(()));
    // Characters are counted, not bytes.
    assert_eq!(validate_submission(&payload(&"é".repeat(500), Some(&"ü".repeat(50)))), Ok(()));
}

#[test]
fn invalid_submissions_report_each_field() {
    assert_eq!(
        validate_submission(&payload("", Some("Ada"))),
        Err("message: length is lower than 1\n".to_owned())
    );
    assert_eq!(
        validate_submission(&payload(&"x".repeat(501), Some(""))),
        Err("message: length is greater than 500\nauthor: length is lower than 1\n".to_owned())
    );
    assert_eq!(
        validate_submission(&payload("Hi", Some(&"y".repeat(51)))),
        Err("author: length is greater than 50\n".to_owned())
    );
}

#[test]
fn form_with_submission_and_image() {
    let mut form = SubmissionForm::new();
    assert_eq!(form.begin_field(None, None), Ok(FieldPlan::Skip));
    assert_eq!(form.begin_field(Some("submission"), Some("application/json")), Ok(FieldPlan::ReadSubmission));
    assert_eq!(SubmissionForm::submission_body(Some(b"{}")), Ok(()));
    assert_eq!(form.accept_submission(Ok(payload("Hello", Some("Ada")))), Ok(()));
    assert_eq!(form.begin_field(Some("image"), Some("image/jpeg")), Ok(FieldPlan::ReadImage));
    let bytes = jpeg(2, 2);
    assert_eq!(SubmissionForm::image_body(Some(&bytes)), Ok(()));
    let checked = check(bytes.clone());
    assert!(checked.is_ok());
    assert_eq!(form.accept_image(Some(checked)), Ok(()));
    let (submission, image) = form.finish().unwrap();
    assert_eq!(submission, payload("Hello", Some("Ada")));
    assert_eq!(image.unwrap().bytes, bytes);
}

#[test]
fn duplicate_parts_are_refused() {
    let mut form = SubmissionForm::new();
    form.accept_submission(Ok(payload("Hello", None))).unwrap();
    let error = form.begin_field(Some("submission"), None).unwrap_err();
    assert_eq!(error.status, ErrorStatus::BadRequest);
    assert_eq!(error.message, "Duplicate field: submission");
    let error = form.accept_submission(Ok(payload("Again", None))).unwrap_err();
    assert_eq!(error.message, "Duplicate field: submission");

    form.accept_image(Some(check(jpeg(3, 3)))).unwrap();
    let error = form.begin_field(Some("image"), Some("image/jpeg")).unwrap_err();
    assert_eq!(error.message, "Duplicate field: image");
}

#[test]
fn unknown_and_mistyped_parts_are_refused() {
    let form = SubmissionForm::new();
    let error = form.begin_field(Some("photo"), Some("image/jpeg")).unwrap_err();
    assert_eq!(error.status, ErrorStatus::BadRequest);
    assert_eq!(error.message, "Unknown field: photo");
    let error = form.begin_field(Some("image"), Some("image/png")).unwrap_err();
    assert_eq!(error.message, "The image must be a JPEG");
    let error = form.begin_field(Some("image"), None).unwrap_err();
    assert_eq!(error.message, "The image must be a JPEG");
}

#[test]
fn submission_part_checks() {
    let error = SubmissionForm::submission_body(None).unwrap_err();
    assert_eq!(error.message, "The submission JSON could not be read");
    assert_eq!(SubmissionForm::submission_body(Some(&vec![b' '; 4096])), Ok(()));
    let error = SubmissionForm::submission_body(Some(&vec![b' '; 4097])).unwrap_err();
    assert_eq!(error.status, ErrorStatus::PayloadTooLarge);
    assert_eq!(error.message, "The submission JSON is too large");

    let mut form = SubmissionForm::new();
    let error = form.accept_submission(Err("expected value at line 1 column 1".to_owned())).unwrap_err();
    assert_eq!(error.message, "Invalid submission JSON: expected value at line 1 column 1");
    let error = form.accept_submission(Ok(payload("", None))).unwrap_err();
    assert_eq!(error.status, ErrorStatus::BadRequest);
    assert_eq!(error.message, "Invalid submission: message: length is lower than 1\n");
    let error = form.finish().unwrap_err();
    assert_eq!(error.message, "The submission part is required");
}

#[test]
fn image_part_checks() {
    let error = SubmissionForm::image_body(None).unwrap_err();
    assert_eq!(error.message, "The image could not be read");
    let error = SubmissionForm::image_body(Some(&[])).unwrap_err();
    assert_eq!(error.message, "The image is empty");
    let error = SubmissionForm::image_body(Some(&vec![0; 8 * 1024 * 1024 + 1])).unwrap_err();
    assert_eq!(error.status, ErrorStatus::PayloadTooLarge);
    assert_eq!(error.message, "The JPEG must be no larger than 8 MB");
    assert_eq!(SubmissionForm::image_body(Some(&vec![0; 8 * 1024 * 1024])), Ok(()));

    let mut form = SubmissionForm::new();
    let error = form.accept_image(None).unwrap_err();
    assert_eq!(error.status, ErrorStatus::InternalServerError);
    assert_eq!(error.message, "The image validator stopped unexpectedly");
}

#[test]
fn jpeg_checks() {
    let error = check(b"not a jpeg".to_vec()).unwrap_err();
    assert_eq!(error.status, ErrorStatus::BadRequest);
    assert_eq!(error.message, "The image is not a valid JPEG");

    let error = check(jpeg(1025, 1)).unwrap_err();
    assert_eq!(error.message, "The JPEG must fit within 1024x1024 pixels");
    let bytes = jpeg(1024, 1);
    assert_eq!(check(bytes.clone()).unwrap().into_bytes(), bytes);

    // A JPEG cut short has a header but does not decode.
    let mut cut = jpeg(64, 64);
    cut.truncate(cut.len() / 2);
    assert!(check(cut).is_err());
}

#[test]
fn jpeg_verdict_from_decoder_reports() {
    let bytes = vec![0xFF, 0xD8];
    assert_eq!(validate_jpeg(bytes.clone(), Some((2, 3, 18)), true).unwrap().into_bytes(), bytes);
    let error = validate_jpeg(bytes.clone(), Some((2, 3, 18)), false).unwrap_err();
    assert_eq!(error.message, "The image is not a valid JPEG");
    let error = validate_jpeg(bytes.clone(), None, true).unwrap_err();
    assert_eq!(error.message, "The image is not a valid JPEG");
    let error = validate_jpeg(bytes.clone(), Some((0, 3, 0)), true).unwrap_err();
    assert_eq!(error.message, "The JPEG has invalid dimensions");
    let error = validate_jpeg(bytes, Some((2000, 3, 18000)), true).unwrap_err();
    assert_eq!(error.message, "The JPEG must fit within 1024x1024 pixels");
}

#[test]
fn jpeg_header_checks() {
    assert_eq!(jpeg_header_verdict(Some((2, 3, 18))), Ok(18));
    assert_eq!(jpeg_header_verdict(Some((1024, 1024, 3 * 1024 * 1024))), Ok(3 * 1024 * 1024));
    assert_eq!(jpeg_header_verdict(None).unwrap_err().message, "The image is not a valid JPEG");
    assert_eq!(jpeg_header_verdict(Some((0, 3, 0))).unwrap_err().message, "The JPEG has invalid dimensions");
    assert_eq!(jpeg_header_verdict(Some((3, 0, 0))).unwrap_err().message, "The JPEG has invalid dimensions");
    assert_eq!(
        jpeg_header_verdict(Some((3, 1025, 9))).unwrap_err().message,
        "The JPEG must fit within 1024x1024 pixels"
    );
}
