//! What a submission is, when it is valid, and the decisions taken while
//! the multipart form that carries it is read part by part.
use vstd::prelude::*;

use crate::api::{bad_request, internal_error, api_error, is_error, joined, reject_duplicate, ApiError, ErrorStatus};
use crate::text::{decimal, same_text};
use garde::rules::length::chars;

verus! {

/// Images wider or taller than this many pixels are refused.
pub const MAX_IMAGE_DIMENSION: u32 = 1024;
/// The largest image part accepted, in bytes.
pub const MAX_IMAGE_BYTES: usize = 8 * 1024 * 1024;
/// The largest submission part accepted, in bytes.
pub const MAX_SUBMISSION_BYTES: usize = 4 * 1024;
/// The largest request body accepted, in bytes.
pub const MAX_REQUEST_BYTES: usize = 9 * 1024 * 1024;
/// The bounds on the length of a message, in characters.
pub const MESSAGE_MIN_CHARS: usize = 1;
pub const MESSAGE_MAX_CHARS: usize = 500;
/// The bounds on the length of an author, in characters.
pub const AUTHOR_MIN_CHARS: usize = 1;
pub const AUTHOR_MAX_CHARS: usize = 50;

/// What kind of submission: a piece of wisdom or a quote.
#[derive(Debug, Clone, Copy, PartialEq, Eq, Structural)]
pub enum SubmissionType {
    Wisdom,
    Quote,
}

/// The JSON part of a submission.
#[derive(Debug, Clone, PartialEq, Eq)]
pub struct SubmissionPayload {
    pub message: String,
    pub author: Option<String>,
    pub submission_type: SubmissionType,
}

/// The JPEG part of a submission.
#[derive(Debug, Clone, PartialEq, Eq)]
pub struct SubmissionImage {
    pub bytes: Vec<u8>,
}

/// The error of a length check on a text of `len` characters, if any.
pub open spec fn length_error(len: nat, min: nat, max: nat) -> Option<Seq<char>> {
    if len < min {
        Some("length is lower than "@ + decimal(min))
    } else if len > max {
        Some("length is greater than "@ + decimal(max))
    } else {
        None
    }
}

/// Checks the length in characters of `value` with garde's
/// `length(chars, ...)` rule (`garde::rules::length::chars::apply`). As its
/// source shows, it counts the characters and fails below `min` first, then
/// above `max`, with the messages of `length_error`.
#[verifier::external_body]
fn check_char_length(value: &str, min: usize, max: usize) -> (r: Result<(), String>)
    ensures
        r matches Err(m) ==> Some(m@) == length_error(value@.len(), min as nat, max as nat),
        r is Ok <==> length_error(value@.len(), min as nat, max as nat) is None,
{
    match chars::apply(&value, (min, max)) {
        Ok(()) => Ok(()),
        Err(error) => Err(error.to_string()),
    }
}

/// One line of a validation report: `field: error` and a newline.
pub open spec fn report_line(field: Seq<char>, error: Option<Seq<char>>) -> Seq<char> {
    match error {
        Some(e) => field + ": "@ + e + "\n"@,
        None => Seq::empty(),
    }
}

/// The error of the message's length, if any.
pub open spec fn message_error(p: SubmissionPayload) -> Option<Seq<char>> {
    length_error(p.message@.len(), MESSAGE_MIN_CHARS as nat, MESSAGE_MAX_CHARS as nat)
}

/// The error of the author's length, if any; a missing author is fine.
pub open spec fn author_error(p: SubmissionPayload) -> Option<Seq<char>> {
    match p.author {
        Some(a) => length_error(a@.len(), AUTHOR_MIN_CHARS as nat, AUTHOR_MAX_CHARS as nat),
        None => None,
    }
}

/// A submission is valid when its message has 1 to 500 characters and its
/// author, if it has one, 1 to 50.
pub open spec fn submission_valid(p: SubmissionPayload) -> bool {
    message_error(p) is None && author_error(p) is None
}

/// The report of what is wrong with a submission: one line per failing
/// field, in the order of the fields.
pub open spec fn validation_report(p: SubmissionPayload) -> Seq<char> {
    report_line("message"@, message_error(p)) + report_line("author"@, author_error(p))
}

fn report_line_text(field: &str, error: &String) -> (s: String)
    ensures
        s@ == field@ + ": "@ + error@ + "\n"@,
{
    let mut s = String::from_str(field);
    s.append(": ");
    s.append(error.as_str());
    s.append("\n");
    s
}

/// Validates a submission: `Err` with the report exactly when it is not valid.
pub fn validate_submission(p: &SubmissionPayload) -> (r: Result<(), String>)
    ensures
        r is Ok <==> submission_valid(*p),
        r matches Err(m) ==> m@ == validation_report(*p),
{
    let mut report = String::new();
    let mut failed = false;
    match check_char_length(p.message.as_str(), MESSAGE_MIN_CHARS, MESSAGE_MAX_CHARS) {
        Ok(()) => {},
        Err(error) => {
            let line = report_line_text("message", &error);
            report.append(line.as_str());
            failed = true;
        },
    }
    assert(report@ == report_line("message"@, message_error(*p))) by {
        reveal_strlit("message");
    }
    match &p.author {
        Some(author) => match check_char_length(author.as_str(), AUTHOR_MIN_CHARS, AUTHOR_MAX_CHARS) {
            Ok(()) => {},
            Err(error) => {
                let line = report_line_text("author", &error);
                report.append(line.as_str());
                failed = true;
            },
        },
        None => {},
    }
    assert(report@ == validation_report(*p)) by {
        reveal_strlit("author");
    }
    if failed {
        Err(report)
    } else {
        Ok(())
    }
}

/// The message for bytes that are not a JPEG that decodes.
pub open spec fn not_jpeg_message() -> Seq<char> {
    "The image is not a valid JPEG"@
}

/// Why the size checks refuse an image, given what the JPEG decoder read
/// from its header (width, height and decoded size in bytes; `None` when it
/// could not read one): no header, a width or height of 0, more than 1024
/// pixels either way, or a decoded size beyond memory's address range;
/// `None` when they pass.
pub open spec fn header_rejection(header: Option<(u32, u32, u64)>) -> Option<Seq<char>> {
    match header {
        None => Some(not_jpeg_message()),
        Some((w, h, total)) => if w == 0 || h == 0 {
            Some("The JPEG has invalid dimensions"@)
        } else if w > MAX_IMAGE_DIMENSION || h > MAX_IMAGE_DIMENSION {
            Some("The JPEG must fit within 1024x1024 pixels"@)
        } else if total > usize::MAX {
            Some("The JPEG is too large to decode"@)
        } else {
            None
        },
    }
}

/// Applies the size checks to what the JPEG decoder read from a header:
/// `Ok` with the decoded size to decode into when they pass, else the 400
/// that says why not.
pub fn jpeg_header_verdict(header: Option<(u32, u32, u64)>) -> (r: Result<usize, ApiError>)
    ensures
        header_rejection(header) matches Some(m) ==> (r matches Err(e) && is_error(e, ErrorStatus::BadRequest, m)),
        header_rejection(header) is None ==> r == Ok::<usize, ApiError>(header.unwrap().2 as usize),
{
    match header {
        None => Err(bad_request(String::from_str("The image is not a valid JPEG"))),
        Some((width, height, total)) => {
            if width == 0 || height == 0 {
                return Err(bad_request(String::from_str("The JPEG has invalid dimensions")));
            }
            if width > MAX_IMAGE_DIMENSION || height > MAX_IMAGE_DIMENSION {
                return Err(bad_request(String::from_str("The JPEG must fit within 1024x1024 pixels")));
            }
            if total > usize::MAX as u64 {
                return Err(bad_request(String::from_str("The JPEG is too large to decode")));
            }
            Ok(total as usize)
        },
    }
}

/// Why an image is refused, given what the JPEG decoder reported: the size
/// checks on its header, else a full decode that failed; `None` when it is
/// accepted.
pub open spec fn jpeg_rejection(header: Option<(u32, u32, u64)>, decoded: bool) -> Option<Seq<char>> {
    match header_rejection(header) {
        Some(m) => Some(m),
        None => if decoded { None } else { Some(not_jpeg_message()) },
    }
}

/// A JPEG that passed the checks: its header gives a size of 1 to 1024
/// pixels each way, and it decoded in full.
#[derive(Debug)]
pub struct CheckedJpeg {
    bytes: Vec<u8>,
    width: u32,
    height: u32,
}

impl CheckedJpeg {
    #[verifier::type_invariant]
    spec fn within_limits(self) -> bool {
        1 <= self.width <= MAX_IMAGE_DIMENSION && 1 <= self.height <= MAX_IMAGE_DIMENSION
    }

    /// The bytes of the JPEG.
    pub closed spec fn view(&self) -> Seq<u8> {
        self.bytes@
    }

    /// The width in pixels that its header gives.
    pub closed spec fn width(&self) -> u32 {
        self.width
    }

    /// The height in pixels that its header gives.
    pub closed spec fn height(&self) -> u32 {
        self.height
    }

    /// The bytes of the JPEG, whose size is within the limits.
    pub fn into_bytes(self) -> (b: Vec<u8>)
        ensures
            b@ == self@,
            1 <= self.width() <= MAX_IMAGE_DIMENSION,
            1 <= self.height() <= MAX_IMAGE_DIMENSION,
    {
        proof { use_type_invariant(&self); }
        self.bytes
    }
}

/// Decides on the image `bytes` from what the JPEG decoder reported on
/// them: `header` is what it read from the header (`None` when it could
/// not read one), and `decoded` whether the full decode into the size that
/// `jpeg_header_verdict` gave succeeded (it is not looked at when the header
/// fails the checks). A passing image comes back checked; otherwise the 400
/// says why not.
pub fn validate_jpeg(bytes: Vec<u8>, header: Option<(u32, u32, u64)>, decoded: bool) -> (r: Result<CheckedJpeg, ApiError>)
    ensures
        jpeg_rejection(header, decoded) matches Some(m) ==> (r matches Err(e) && is_error(e, ErrorStatus::BadRequest, m)),
        jpeg_rejection(header, decoded) is None ==> (r matches Ok(j) && j@ == bytes@
            && j.width() == header.unwrap().0 && j.height() == header.unwrap().1),
{
    match jpeg_header_verdict(header) {
        Ok(_) => {},
        Err(error) => return Err(error),
    }
    if !decoded {
        return Err(bad_request(String::from_str("The image is not a valid JPEG")));
    }
    let (width, height, _) = header.unwrap();
    Ok(CheckedJpeg { bytes, width, height })
}

/// What to do with the next part of the form.
#[derive(Debug, Clone, Copy, PartialEq, Eq, Structural)]
pub enum FieldPlan {
    /// A part without a name: pass over it.
    Skip,
    /// Read the part as the submission JSON.
    ReadSubmission,
    /// Read the part as the JPEG image.
    ReadImage,
}

proof fn lemma_part_names()
    ensures
        "Duplicate field: "@ + "submission"@ == "Duplicate field: submission"@,
        "Duplicate field: "@ + "image"@ == "Duplicate field: image"@,
        "submission"@ != "image"@,
{
    reveal_strlit("Duplicate field: ");
    reveal_strlit("submission");
    reveal_strlit("image");
    reveal_strlit("Duplicate field: submission");
    reveal_strlit("Duplicate field: image");
    assert("Duplicate field: "@ + "submission"@ =~= "Duplicate field: submission"@);
    assert("Duplicate field: "@ + "image"@ =~= "Duplicate field: image"@);
    assert("submission"@.len() != "image"@.len());
}

/// The part name `name` is `text`.
pub open spec fn named(name: Option<&str>, text: Seq<char>) -> bool {
    name matches Some(n) && n@ == text
}

/// The parts of a submission form read so far. Each part that it holds
/// passed its checks: the submission is valid, and the image is a
/// `CheckedJpeg`.
pub struct SubmissionForm {
    submission: Option<SubmissionPayload>,
    image: Option<CheckedJpeg>,
}

impl SubmissionForm {
    #[verifier::type_invariant]
    spec fn holds_valid_submission(self) -> bool {
        self.submission matches Some(p) ==> submission_valid(p)
    }

    /// The submission read so far.
    pub closed spec fn submission(&self) -> Option<SubmissionPayload> {
        self.submission
    }

    /// The bytes of the image read so far.
    pub closed spec fn image(&self) -> Option<Seq<u8>> {
        match self.image {
            Some(j) => Some(j@),
            None => None,
        }
    }

    /// A form with no part read yet.
    pub fn new() -> (f: Self)
        ensures
            f.submission() is None,
            f.image() is None,
    {
        SubmissionForm { submission: None, image: None }
    }

    /// Decides what to do with the next part, from its name and content
    /// type: pass over a part without a name, read a submission or an image
    /// seen for the first time (an image only when it says it is a JPEG), and
    /// refuse a second submission or image and any other name.
    pub fn begin_field(&self, name: Option<&str>, content_type: Option<&str>) -> (r: Result<FieldPlan, ApiError>)
        ensures
            name is None ==> r == Ok::<FieldPlan, ApiError>(FieldPlan::Skip),
            named(name, "submission"@) ==> {
                &&& self.submission() is Some ==> (r matches Err(e)
                    && is_error(e, ErrorStatus::BadRequest, "Duplicate field: submission"@))
                &&& self.submission() is None ==> r == Ok::<FieldPlan, ApiError>(FieldPlan::ReadSubmission)
            },
            named(name, "image"@) ==> {
                &&& self.image() is Some ==> (r matches Err(e)
                    && is_error(e, ErrorStatus::BadRequest, "Duplicate field: image"@))
                &&& (self.image() is None && !named(content_type, "image/jpeg"@)) ==> (r matches Err(e)
                    && is_error(e, ErrorStatus::BadRequest, "The image must be a JPEG"@))
                &&& (self.image() is None && named(content_type, "image/jpeg"@))
                    ==> r == Ok::<FieldPlan, ApiError>(FieldPlan::ReadImage)
            },
            name matches Some(n) ==> (n@ != "submission"@ && n@ != "image"@ ==> (r matches Err(e)
                && is_error(e, ErrorStatus::BadRequest, "Unknown field: "@ + n@))),
    {
        proof { lemma_part_names(); }
        let name = match name {
            Some(name) => name,
            None => return Ok(FieldPlan::Skip),
        };
        if same_text(name, "submission") {
            match reject_duplicate(&self.submission, "submission") {
                Ok(()) => {},
                Err(error) => return Err(error),
            }
            Ok(FieldPlan::ReadSubmission)
        } else if same_text(name, "image") {
            proof { use_type_invariant(&*self); }
        match reject_duplicate(&self.image, "image") {
                Ok(()) => {},
                Err(error) => return Err(error),
            }
            let is_jpeg = match content_type {
                Some(kind) => same_text(kind, "image/jpeg"),
                None => false,
            };
            if !is_jpeg {
                return Err(bad_request(String::from_str("The image must be a JPEG")));
            }
            Ok(FieldPlan::ReadImage)
        } else {
            Err(bad_request(joined("Unknown field: ", name)))
        }
    }

    /// Checks the bytes of the submission part (`None` when they could not
    /// be read): at most `MAX_SUBMISSION_BYTES` of them.
    pub fn submission_body(read: Option<&[u8]>) -> (r: Result<(), ApiError>)
        ensures
            read is None ==> (r matches Err(e)
                && is_error(e, ErrorStatus::BadRequest, "The submission JSON could not be read"@)),
            read matches Some(b) ==> {
                &&& b@.len() > MAX_SUBMISSION_BYTES ==> (r matches Err(e)
                    && is_error(e, ErrorStatus::PayloadTooLarge, "The submission JSON is too large"@))
                &&& b@.len() <= MAX_SUBMISSION_BYTES ==> r is Ok
            },
    {
        match read {
            None => Err(bad_request(String::from_str("The submission JSON could not be read"))),
            Some(bytes) => {
                if bytes.len() > MAX_SUBMISSION_BYTES {
                    return Err(api_error(
                        ErrorStatus::PayloadTooLarge,
                        String::from_str("The submission JSON is too large"),
                    ));
                }
                Ok(())
            },
        }
    }

    /// Takes the parsed submission part (`Err` with the parser's message when
    /// it is not the expected JSON): a valid submission is kept; otherwise the
    /// 400 says why, with the JSON error or the validation report.
    pub fn accept_submission(&mut self, parsed: Result<SubmissionPayload, String>) -> (r: Result<(), ApiError>)
        ensures
            final(self).image() == old(self).image(),
            r is Err ==> final(self).submission() == old(self).submission(),
            old(self).submission() is Some ==> (r matches Err(e)
                && is_error(e, ErrorStatus::BadRequest, "Duplicate field: submission"@)),
            old(self).submission() is None ==> {
                &&& parsed matches Err(m) ==> (r matches Err(e)
                    && is_error(e, ErrorStatus::BadRequest, "Invalid submission JSON: "@ + m@))
                &&& parsed matches Ok(p) ==> {
                    &&& !submission_valid(p) ==> (r matches Err(e)
                        && is_error(e, ErrorStatus::BadRequest, "Invalid submission: "@ + validation_report(p)))
                    &&& submission_valid(p) ==> (r is Ok && final(self).submission() == Some(p))
                }
            },
    {
        match reject_duplicate(&self.submission, "submission") {
            Ok(()) => {},
            Err(error) => {
                proof { lemma_part_names(); }
                return Err(error);
            },
        }
        let payload = match parsed {
            Ok(payload) => payload,
            Err(message) => return Err(bad_request(joined("Invalid submission JSON: ", message.as_str()))),
        };
        match validate_submission(&payload) {
            Ok(()) => {},
            Err(report) => return Err(bad_request(joined("Invalid submission: ", report.as_str()))),
        }
        self.submission = Some(payload);
        Ok(())
    }

    /// Checks the bytes of the image part (`None` when they could not be
    /// read): not empty and at most `MAX_IMAGE_BYTES` of them.
    pub fn image_body(read: Option<&[u8]>) -> (r: Result<(), ApiError>)
        ensures
            read is None ==> (r matches Err(e)
                && is_error(e, ErrorStatus::BadRequest, "The image could not be read"@)),
            read matches Some(b) ==> {
                &&& b@.len() == 0 ==> (r matches Err(e)
                    && is_error(e, ErrorStatus::BadRequest, "The image is empty"@))
                &&& b@.len() > MAX_IMAGE_BYTES ==> (r matches Err(e)
                    && is_error(e, ErrorStatus::PayloadTooLarge, "The JPEG must be no larger than 8 MB"@))
                &&& 1 <= b@.len() <= MAX_IMAGE_BYTES ==> r is Ok
            },
    {
        match read {
            None => Err(bad_request(String::from_str("The image could not be read"))),
            Some(bytes) => {
                if bytes.len() == 0 {
                    return Err(bad_request(String::from_str("The image is empty")));
                }
                if bytes.len() > MAX_IMAGE_BYTES {
                    return Err(api_error(
                        ErrorStatus::PayloadTooLarge,
                        String::from_str("The JPEG must be no larger than 8 MB"),
                    ));
                }
                Ok(())
            },
        }
    }

    /// Takes the outcome of `validate_jpeg` on the image part (`None` when
    /// the task that ran it stopped): a checked JPEG is kept; its error is
    /// passed on; a stopped task is a 500.
    pub fn accept_image(&mut self, checked: Option<Result<CheckedJpeg, ApiError>>) -> (r: Result<(), ApiError>)
        ensures
            final(self).submission() == old(self).submission(),
            r is Err ==> final(self).image() == old(self).image(),
            old(self).image() is Some ==> (r matches Err(e)
                && is_error(e, ErrorStatus::BadRequest, "Duplicate field: image"@)),
            old(self).image() is None ==> {
                &&& checked is None ==> (r matches Err(e)
                    && is_error(e, ErrorStatus::InternalServerError, "The image validator stopped unexpectedly"@))
                &&& checked matches Some(Err(e)) ==> r == Err::<(), ApiError>(e)
                &&& checked matches Some(Ok(j)) ==> (r is Ok && final(self).image() == Some(j@))
            },
    {
        proof { use_type_invariant(&*self); }
        match reject_duplicate(&self.image, "image") {
            Ok(()) => {},
            Err(error) => {
                proof { lemma_part_names(); }
                return Err(error);
            },
        }
        match checked {
            None => Err(internal_error(String::from_str("The image validator stopped unexpectedly"))),
            Some(Err(error)) => Err(error),
            Some(Ok(jpeg)) => {
                self.image = Some(jpeg);
                Ok(())
            },
        }
    }

    /// The 400 for a form that could not be read as multipart data.
    pub fn stream_error(detail: &str) -> (e: ApiError)
        ensures
            is_error(e, ErrorStatus::BadRequest, "Invalid multipart data: "@ + detail@),
    {
        bad_request(joined("Invalid multipart data: ", detail))
    }

    /// The submission and image read, once the form has ended; a form
    /// without a submission is a 400. Whatever the order of the parts, what
    /// comes out is a valid submission and, if any, the bytes of an image
    /// that passed the JPEG checks.
    pub fn finish(self) -> (r: Result<(SubmissionPayload, Option<SubmissionImage>), ApiError>)
        ensures
            r matches Ok((p, _)) ==> submission_valid(p),
            self.submission() is None ==> (r matches Err(e)
                && is_error(e, ErrorStatus::BadRequest, "The submission part is required"@)),
            self.submission() matches Some(p) ==> (r matches Ok((q, image)) && q == p && match image {
                Some(i) => self.image() == Some(i.bytes@),
                None => self.image() is None,
            }),
    {
        proof { use_type_invariant(&self); }
        let SubmissionForm { submission, image } = self;
        match submission {
            None => Err(bad_request(String::from_str("The submission part is required"))),
            Some(payload) => {
                let image = match image {
                    Some(jpeg) => Some(SubmissionImage { bytes: jpeg.into_bytes() }),
                    None => None,
                };
                Ok((payload, image))
            },
        }
    }
}

/// Law: a submission is valid exactly when its message has 1 to 500
/// characters and its author, when there is one, 1 to 50; then, and only
/// then, its report is empty.
pub proof fn lemma_submission_rule(p: SubmissionPayload)
    ensures
        submission_valid(p) <==> (1 <= p.message@.len() <= 500 && match p.author {
            Some(a) => 1 <= a@.len() <= 50,
            None => true,
        }),
        submission_valid(p) <==> validation_report(p).len() == 0,
{
    reveal_strlit("message");
    reveal_strlit("author");
    reveal_strlit(": ");
    reveal_strlit("\n");
}

/// Law: the header of an image passes the size checks exactly when the
/// decoder read one, with a width and a height of 1 to 1024 pixels and a
/// decoded size within memory's address range.
pub proof fn lemma_header_rule(header: Option<(u32, u32, u64)>)
    ensures
        header_rejection(header) is None <==> (header matches Some((w, h, total))
            && 1 <= w <= 1024 && 1 <= h <= 1024 && total <= usize::MAX),
{
}
} // verus!
