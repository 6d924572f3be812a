use quotewall::{
    print_job_steps, receipt_steps, receipt_time, Justify, ReceiptStep, SubmissionPayload,
    SubmissionType,
};

fn heading(title: &str, date_time: &str) -> Vec<ReceiptStep> {
    vec![
        ReceiptStep::Init,
        ReceiptStep::Smoothing(true),
        ReceiptStep::Justify(Justify::Center),
        ReceiptStep::Size(3, 2),
        ReceiptStep::WriteLine(title.to_owned()),
        ReceiptStep::ResetSize,
        ReceiptStep::Reverse(false),
        ReceiptStep::Bold(false),
        ReceiptStep::ResetSize,
        ReceiptStep::WriteLine(date_time.to_owned()),
        ReceiptStep::Feed,
        ReceiptStep::DrawLine,
    ]
}

#[test]
fn quote_with_author_and_image() {
    let submission = SubmissionPayload {
        message: "Be kind".to_owned(),
        author: Some("Ada".to_owned()),
        submission_type: SubmissionType::Quote,
    };
    let steps = receipt_steps(&submission, "03/07/2025 04:05 PM", Some(vec![1, 2, 3]));
    let mut expected = heading("Quote", "03/07/2025 04:05 PM");
    expected.extend([
        ReceiptStep::Feed,
        ReceiptStep::WriteLine("\"Be kind\"".to_owned()),
        ReceiptStep::Feed,
        ReceiptStep::Justify(Justify::Right),
        ReceiptStep::Bold(true),
        ReceiptStep::WriteLine("- Ada".to_owned()),
        ReceiptStep::PrepareImage(vec![1, 2, 3]),
        ReceiptStep::Justify(Justify::Center),
        ReceiptStep::Feed,
        ReceiptStep::BitImage,
        ReceiptStep::PrintCut,
    ]);
    assert_eq!(steps, expected);
}

#[test]
fn wisdom_without_author_or_image() {
    let submission = SubmissionPayload {
        message: "Sleep early".to_owned(),
        author: None,
        submission_type: SubmissionType::Wisdom,
    };
    let steps = receipt_steps(&submission, "now", None);
    let mut expected = heading("Words of Wisdom", "now");
    expected.extend([
        ReceiptStep::Feed,
        ReceiptStep::WriteLine("\"Sleep early\"".to_owned()),
        ReceiptStep::Feed,
        ReceiptStep::PrintCut,
    ]);
    assert_eq!(steps, expected);
}

#[test]
fn receipt_time_is_chicago_time() {
    // The epoch is 6 PM on New Year's Eve in Chicago (UTC-6).
    assert_eq!(receipt_time(0), Some("12/31/1969 06:00 PM".to_owned()));
    // 2025-07-04 17:30 UTC is 12:30 PM daylight time (UTC-5).
    assert_eq!(receipt_time(1_751_650_200), Some("07/04/2025 12:30 PM".to_owned()));
    assert_eq!(receipt_time(i64::MAX), None);
}

#[test]
fn print_job_steps_uses_the_time() {
    let submission = SubmissionPayload {
        message: "Hi".to_owned(),
        author: None,
        submission_type: SubmissionType::Quote,
    };
    let steps = print_job_steps(&submission, 0, None).unwrap();
    assert_eq!(steps[9], ReceiptStep::WriteLine("12/31/1969 06:00 PM".to_owned()));
    assert_eq!(print_job_steps(&submission, i64::MAX, None), None);
}
