//! The layout of a printed receipt: the steps that the printer is driven
//! through for one submission.
use vstd::prelude::*;

use crate::submission::{SubmissionPayload, SubmissionType};
use chrono::DateTime;
use chrono_tz::Tz;
use std::fmt::Write;

verus! {

/// Where a line of text stands on the paper.
#[derive(Debug, Clone, Copy, PartialEq, Eq, Structural)]
pub enum Justify {
    Center,
    Right,
}

/// One printer instruction.
#[derive(Debug, Clone, PartialEq, Eq)]
pub enum ReceiptStep {
    /// Reset the printer.
    Init,
    Smoothing(bool),
    Justify(Justify),
    /// Character width and height multipliers.
    Size(u8, u8),
    /// Print a line of text.
    WriteLine(String),
    ResetSize,
    Reverse(bool),
    Bold(bool),
    /// Advance the paper one line.
    Feed,
    /// Draw a simple horizontal rule.
    DrawLine,
    /// Turn the JPEG into the dithered image that the printer can print.
    PrepareImage(Vec<u8>),
    /// Print the image that the last `PrepareImage` step made.
    BitImage,
    /// Print everything and cut the paper.
    PrintCut,
}

/// A printer instruction, with its text and bytes as sequences.
pub enum StepModel {
    Init,
    Smoothing(bool),
    Justify(Justify),
    Size(u8, u8),
    WriteLine(Seq<char>),
    ResetSize,
    Reverse(bool),
    Bold(bool),
    Feed,
    DrawLine,
    PrepareImage(Seq<u8>),
    BitImage,
    PrintCut,
}

impl View for ReceiptStep {
    type V = StepModel;

    open spec fn view(&self) -> StepModel {
        match self {
            ReceiptStep::Init => StepModel::Init,
            ReceiptStep::Smoothing(b) => StepModel::Smoothing(*b),
            ReceiptStep::Justify(j) => StepModel::Justify(*j),
            ReceiptStep::Size(w, h) => StepModel::Size(*w, *h),
            ReceiptStep::WriteLine(s) => StepModel::WriteLine(s@),
            ReceiptStep::ResetSize => StepModel::ResetSize,
            ReceiptStep::Reverse(b) => StepModel::Reverse(*b),
            ReceiptStep::Bold(b) => StepModel::Bold(*b),
            ReceiptStep::Feed => StepModel::Feed,
            ReceiptStep::DrawLine => StepModel::DrawLine,
            ReceiptStep::PrepareImage(v) => StepModel::PrepareImage(v@),
            ReceiptStep::BitImage => StepModel::BitImage,
            ReceiptStep::PrintCut => StepModel::PrintCut,
        }
    }
}

/// The steps of a receipt as models.
pub open spec fn steps_model(steps: Seq<ReceiptStep>) -> Seq<StepModel> {
    steps.map_values(|s: ReceiptStep| s@)
}

/// The heading of a receipt.
pub open spec fn title_text(kind: SubmissionType) -> Seq<char> {
    match kind {
        SubmissionType::Wisdom => "Words of Wisdom"@,
        SubmissionType::Quote => "Quote"@,
    }
}

/// The message in double quotes.
pub open spec fn quoted(message: Seq<char>) -> Seq<char> {
    "\""@ + message + "\""@
}

/// The author's signature line.
pub open spec fn signed(author: Seq<char>) -> Seq<char> {
    "- "@ + author
}

/// The heading: the title large and centered, then the time and a rule.
pub open spec fn heading_steps(kind: SubmissionType, date_time: Seq<char>) -> Seq<StepModel> {
    seq![
        StepModel::Init,
        StepModel::Smoothing(true),
        StepModel::Justify(Justify::Center),
        StepModel::Size(3, 2),
        StepModel::WriteLine(title_text(kind)),
        StepModel::ResetSize,
        StepModel::Reverse(false),
        StepModel::Bold(false),
        StepModel::ResetSize,
        StepModel::WriteLine(date_time),
        StepModel::Feed,
        StepModel::DrawLine,
    ]
}

/// The body: the quoted message between blank lines.
pub open spec fn body_steps(message: Seq<char>) -> Seq<StepModel> {
    seq![StepModel::Feed, StepModel::WriteLine(quoted(message)), StepModel::Feed]
}

/// The signature, right-aligned in bold, when there is an author.
pub open spec fn author_steps(author: Option<String>) -> Seq<StepModel> {
    match author {
        Some(a) => seq![StepModel::Justify(Justify::Right), StepModel::Bold(true), StepModel::WriteLine(signed(a@))],
        None => Seq::empty(),
    }
}

/// The picture, centered after a blank line, when there is one.
pub open spec fn image_steps(image: Option<Seq<u8>>) -> Seq<StepModel> {
    match image {
        Some(bytes) => seq![
            StepModel::PrepareImage(bytes),
            StepModel::Justify(Justify::Center),
            StepModel::Feed,
            StepModel::BitImage,
        ],
        None => Seq::empty(),
    }
}

/// The bytes of the picture, if any.
pub open spec fn image_bytes(image: Option<Vec<u8>>) -> Option<Seq<u8>> {
    match image {
        Some(b) => Some(b@),
        None => None,
    }
}

/// The whole receipt for a submission printed at `date_time`.
pub open spec fn receipt_plan(p: SubmissionPayload, date_time: Seq<char>, image: Option<Seq<u8>>) -> Seq<StepModel> {
    heading_steps(p.submission_type, date_time) + body_steps(p.message@) + author_steps(p.author)
        + image_steps(image) + seq![StepModel::PrintCut]
}

/// Law: every receipt starts by resetting the printer, prints the title,
/// the time and the quoted message at fixed places, signs it exactly when
/// there is an author, and ends by cutting the paper.
pub proof fn lemma_receipt_shape(p: SubmissionPayload, date_time: Seq<char>, image: Option<Seq<u8>>)
    ensures
        receipt_plan(p, date_time, image).len() == 16 + (if p.author is Some { 3int } else { 0 })
            + (if image is Some { 4int } else { 0 }),
        receipt_plan(p, date_time, image)[0] == StepModel::Init,
        receipt_plan(p, date_time, image)[1] == StepModel::Smoothing(true),
        receipt_plan(p, date_time, image)[2] == StepModel::Justify(Justify::Center),
        receipt_plan(p, date_time, image)[3] == StepModel::Size(3, 2),
        p.submission_type == SubmissionType::Wisdom ==> receipt_plan(p, date_time, image)[4]
            == StepModel::WriteLine("Words of Wisdom"@),
        p.submission_type == SubmissionType::Quote ==> receipt_plan(p, date_time, image)[4]
            == StepModel::WriteLine("Quote"@),
        receipt_plan(p, date_time, image)[5] == StepModel::ResetSize,
        receipt_plan(p, date_time, image)[6] == StepModel::Reverse(false),
        receipt_plan(p, date_time, image)[7] == StepModel::Bold(false),
        receipt_plan(p, date_time, image)[8] == StepModel::ResetSize,
        receipt_plan(p, date_time, image)[9] == StepModel::WriteLine(date_time),
        receipt_plan(p, date_time, image)[10] == StepModel::Feed,
        receipt_plan(p, date_time, image)[11] == StepModel::DrawLine,
        receipt_plan(p, date_time, image)[12] == StepModel::Feed,
        receipt_plan(p, date_time, image)[13] == StepModel::WriteLine(quoted(p.message@)),
        receipt_plan(p, date_time, image)[14] == StepModel::Feed,
        p.author matches Some(a) ==> {
            &&& receipt_plan(p, date_time, image)[15] == StepModel::Justify(Justify::Right)
            &&& receipt_plan(p, date_time, image)[16] == StepModel::Bold(true)
            &&& receipt_plan(p, date_time, image)[17] == StepModel::WriteLine(signed(a@))
        },
        image matches Some(bytes) ==> {
            let k = 15 + if p.author is Some { 3int } else { 0 };
            &&& receipt_plan(p, date_time, image)[k] == StepModel::PrepareImage(bytes)
            &&& receipt_plan(p, date_time, image)[k + 1] == StepModel::Justify(Justify::Center)
            &&& receipt_plan(p, date_time, image)[k + 2] == StepModel::Feed
            &&& receipt_plan(p, date_time, image)[k + 3] == StepModel::BitImage
        },
        receipt_plan(p, date_time, image).last() == StepModel::PrintCut,
{
}

fn title(kind: SubmissionType) -> (s: String)
    ensures
        s@ == title_text(kind),
{
    match kind {
        SubmissionType::Wisdom => String::from_str("Words of Wisdom"),
        SubmissionType::Quote => String::from_str("Quote"),
    }
}

/// The steps that print a receipt for `submission` at `date_time`, with
/// the JPEG `image` at the bottom when there is one.
pub fn receipt_steps(submission: &SubmissionPayload, date_time: &str, image: Option<Vec<u8>>) -> (steps: Vec<ReceiptStep>)
    ensures
        steps_model(steps@) == receipt_plan(*submission, date_time@, image_bytes(image)),
{
    let mut steps: Vec<ReceiptStep> = Vec::new();
    steps.push(ReceiptStep::Init);
    steps.push(ReceiptStep::Smoothing(true));
    steps.push(ReceiptStep::Justify(Justify::Center));
    steps.push(ReceiptStep::Size(3, 2));
    steps.push(ReceiptStep::WriteLine(title(submission.submission_type)));
    steps.push(ReceiptStep::ResetSize);
    steps.push(ReceiptStep::Reverse(false));
    steps.push(ReceiptStep::Bold(false));
    steps.push(ReceiptStep::ResetSize);
    steps.push(ReceiptStep::WriteLine(String::from_str(date_time)));
    steps.push(ReceiptStep::Feed);
    steps.push(ReceiptStep::DrawLine);
    let ghost heading = steps@;
    assert(steps_model(heading) =~= heading_steps(submission.submission_type, date_time@));

    let mut line = String::from_str("\"");
    line.append(submission.message.as_str());
    line.append("\"");
    steps.push(ReceiptStep::Feed);
    steps.push(ReceiptStep::WriteLine(line));
    steps.push(ReceiptStep::Feed);
    let ghost body = steps@;
    assert(steps_model(body) =~= steps_model(heading) + body_steps(submission.message@));

    match &submission.author {
        Some(author) => {
            let mut signature = String::from_str("- ");
            signature.append(author.as_str());
            steps.push(ReceiptStep::Justify(Justify::Right));
            steps.push(ReceiptStep::Bold(true));
            steps.push(ReceiptStep::WriteLine(signature));
        },
        None => {},
    }
    let ghost signed_part = steps@;
    let ghost picture = image_bytes(image);
    assert(steps_model(signed_part) =~= steps_model(body) + author_steps(submission.author));

    match image {
        Some(bytes) => {
            steps.push(ReceiptStep::PrepareImage(bytes));
            steps.push(ReceiptStep::Justify(Justify::Center));
            steps.push(ReceiptStep::Feed);
            steps.push(ReceiptStep::BitImage);
        },
        None => {},
    }
    let ghost pictured = steps@;
    assert(steps_model(pictured) =~= steps_model(signed_part) + image_steps(picture));
    steps.push(ReceiptStep::PrintCut);
    assert(steps_model(steps@) =~= steps_model(pictured) + seq![StepModel::PrintCut]);
    steps
}

/// The text of the time `unix_seconds` in the time zone named `zone`,
/// written with the strftime `pattern`, as chrono and chrono-tz render it;
/// `None` where they cannot.
pub uninterp spec fn local_time_text(unix_seconds: i64, zone: Seq<char>, pattern: Seq<char>) -> Option<Seq<char>>;

/// Renders a time with chrono (`DateTime::from_timestamp`, `with_timezone`,
/// `format`) in a chrono-tz zone parsed from its name; nothing more is
/// claimed than that the text is the one `local_time_text` names.
#[verifier::external_body]
fn local_time(unix_seconds: i64, zone: &str, pattern: &str) -> (r: Option<String>)
    ensures
        match r {
            Some(s) => local_time_text(unix_seconds, zone@, pattern@) == Some(s@),
            None => local_time_text(unix_seconds, zone@, pattern@) is None,
        },
{
    let zone: Tz = zone.parse().ok()?;
    let time = DateTime::from_timestamp(unix_seconds, 0)?;
    let mut text = String::new();
    write!(text, "{}", time.with_timezone(&zone).format(pattern)).ok()?;
    Some(text)
}

/// The zone of the receipts' clock.
pub open spec fn receipt_zone() -> Seq<char> {
    "America/Chicago"@
}

/// How the receipts write the time: month/day/year and the hour on a
/// 12-hour clock, as in "03/07/2025 04:05 PM".
pub open spec fn receipt_time_pattern() -> Seq<char> {
    "%m/%d/%Y %I:%M %p"@
}

/// The time printed on a receipt made at `unix_seconds`.
pub fn receipt_time(unix_seconds: i64) -> (r: Option<String>)
    ensures
        match r {
            Some(s) => local_time_text(unix_seconds, receipt_zone(), receipt_time_pattern()) == Some(s@),
            None => local_time_text(unix_seconds, receipt_zone(), receipt_time_pattern()) is None,
        },
{
    local_time(unix_seconds, "America/Chicago", "%m/%d/%Y %I:%M %p")
}

/// The steps that print a receipt for `submission` made at `unix_seconds`;
/// `None` when that time cannot be written.
pub fn print_job_steps(submission: &SubmissionPayload, unix_seconds: i64, image: Option<Vec<u8>>) -> (r: Option<Vec<ReceiptStep>>)
    ensures
        local_time_text(unix_seconds, receipt_zone(), receipt_time_pattern()) is None ==> r is None,
        local_time_text(unix_seconds, receipt_zone(), receipt_time_pattern()) matches Some(t) ==> (
            r matches Some(steps) && steps_model(steps@) == receipt_plan(*submission, t, image_bytes(image))),
{
    match receipt_time(unix_seconds) {
        Some(date_time) => Some(receipt_steps(submission, date_time.as_str(), image)),
        None => None,
    }
}

/// Law: the message line of a receipt is a double quote, then every
/// character of the message in order, then a double quote; it is two
/// characters longer than the message, whatever its length.
pub proof fn lemma_quoted_keeps_message(message: Seq<char>)
    ensures
        quoted(message).len() == message.len() + 2,
        quoted(message)[0] == '"',
        quoted(message)[message.len() as int + 1] == '"',
        forall|i: int| 0 <= i < message.len() ==> #[trigger] quoted(message)[i + 1] == message[i],
{
    reveal_strlit("\"");
}

/// Law: the signature line is a dash and a space, then every character of
/// the author's name in order.
pub proof fn lemma_signed_keeps_author(author: Seq<char>)
    ensures
        signed(author).len() == author.len() + 2,
        signed(author)[0] == '-',
        signed(author)[1] == ' ',
        forall|i: int| 0 <= i < author.len() ==> #[trigger] signed(author)[i + 2] == author[i],
{
    reveal_strlit("- ");
}

/// Law: the receipt's time is written in the zone "America/Chicago" with
/// the strftime fields month/day/year, then the hour of the 12-hour clock,
/// the minutes, and the `%p` marker, which chrono writes as AM before noon
/// and PM from noon on (for the local hour of the zone).
pub proof fn lemma_receipt_time_fields()
    ensures
        receipt_zone() =~= seq!['A', 'm', 'e', 'r', 'i', 'c', 'a', '/', 'C', 'h', 'i', 'c', 'a', 'g', 'o'],
        receipt_time_pattern() =~= seq!['%', 'm', '/', '%', 'd', '/', '%', 'Y', ' ', '%', 'I', ':', '%', 'M', ' ', '%', 'p'],
{
    reveal_strlit("America/Chicago");
    reveal_strlit("%m/%d/%Y %I:%M %p");
}
} // verus!
