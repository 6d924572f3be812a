//! Quotewall: the decisions behind a web form that prints quotes on a
//! thermal receipt printer: validating submissions, laying out receipts,
//! reading the printer's status, and driving the printer thread.
mod api;
mod assets;
mod receipt;
mod status;
mod submission;
mod text;
mod worker;

pub use api::{
    api_error, bad_request, internal_error, is_error, joined, lemma_status_codes,
    print_reply_response, printed_message, queue_refusal, reject_duplicate, service_unavailable,
    status_code, status_reply_response, ApiError, ErrorStatus, QueueOutcome, Reply,
};
pub use assets::{
    asset_path_allowed, asset_path_ok, embedded_file, guessed_mime_type, has_parent_step,
    lemma_asset_path_rule, starts_with_slash, AssetResponse,
};
pub use receipt::{
    author_steps, body_steps, heading_steps, image_bytes, image_steps, lemma_quoted_keeps_message,
    lemma_receipt_shape, lemma_receipt_time_fields, lemma_signed_keeps_author, local_time_text,
    print_job_steps, quoted, receipt_plan, receipt_steps, receipt_time, receipt_time_pattern,
    receipt_zone, signed, steps_model, title_text, Justify, ReceiptStep, StepModel,
};
pub use status::{
    availability_from_status, availability_message, availability_of, binary8, bit, bit_weight,
    incomplete_response_message, invalid_pattern_message, lemma_availability_consistent,
    lemma_availability_from_bits, lemma_available_ignores_paper, lemma_status_pattern, status_bits,
    status_pattern_valid, unavailable, PrinterAvailability, StatusBits, StatusQuery,
};
pub use submission::{
    author_error, header_rejection, jpeg_header_verdict, jpeg_rejection, lemma_header_rule,
    lemma_submission_rule, length_error, message_error, named, not_jpeg_message, report_line,
    submission_valid, validate_jpeg, validate_submission, validation_report, AUTHOR_MAX_CHARS,
    AUTHOR_MIN_CHARS, CheckedJpeg, FieldPlan, MAX_IMAGE_BYTES, MAX_IMAGE_DIMENSION,
    MAX_REQUEST_BYTES, MAX_SUBMISSION_BYTES, MESSAGE_MAX_CHARS, MESSAGE_MIN_CHARS, SubmissionForm,
    SubmissionImage, SubmissionPayload, SubmissionType,
};
pub use text::{
    decimal, decimal_text, digit_char, same_text,
};
pub use worker::{
    accepts, count_commands, count_replies, device_out_rule, initial_connect_error, is_command,
    is_reply, is_run, last_command, lemma_actions_can_complete, lemma_failed_print_reconnects,
    lemma_one_reply_per_command, lemma_print_answered, lemma_print_uses_open_device,
    lemma_retry_round, lemma_start_can_complete, lemma_start_keeps_outcome, lemma_status_answered,
    lemma_status_reconnects, print_pending, refreshing_message, retry_spec, status_pending,
    step_spec, unavailable_with, CONNECT_ATTEMPTS, ConnectRetry, Phase, PrinterWorker,
    RETRY_DELAY_MS, RetryStep, WorkerAction, WorkerEvent,
};
