use quotewall::{
    api_error, bad_request, internal_error, print_reply_response, queue_refusal, reject_duplicate,
    service_unavailable, status_reply_response, unavailable, ApiError, ErrorStatus, QueueOutcome,
    Reply,
};

#[test]
fn status_codes() {
    assert_eq!(ErrorStatus::BadRequest.code(), 400);
    assert_eq!(ErrorStatus::PayloadTooLarge.code(), 413);
    assert_eq!(ErrorStatus::InternalServerError.code(), 500);
    assert_eq!(ErrorStatus::ServiceUnavailable.code(), 503);
    assert_eq!(ErrorStatus::GatewayTimeout.code(), 504);
}

#[test]
fn error_constructors() {
    assert_eq!(
        bad_request("x".to_owned()),
        ApiError { status: ErrorStatus::BadRequest, message: "x".to_owned() }
    );
    assert_eq!(service_unavailable("y".to_owned()).status, ErrorStatus::ServiceUnavailable);
    assert_eq!(internal_error("z".to_owned()).status, ErrorStatus::InternalServerError);
    assert_eq!(
        api_error(ErrorStatus::GatewayTimeout, "w".to_owned()),
        ApiError { status: ErrorStatus::GatewayTimeout, message: "w".to_owned() }
    );
}

#[test]
fn reject_duplicate_only_when_present() {
    assert_eq!(reject_duplicate(&None::<u8>, "image"), Ok(()));
    assert_eq!(
        reject_duplicate(&Some(1), "image"),
        Err(bad_request("Duplicate field: image".to_owned()))
    );
}

#[test]
fn queue_refusals() {
    assert_eq!(queue_refusal(QueueOutcome::Queued), Ok(()));
    assert_eq!(
        queue_refusal(QueueOutcome::Full),
        Err(service_unavailable("The printer queue is full".to_owned()))
    );
    assert_eq!(
        queue_refusal(QueueOutcome::Disconnected),
        Err(service_unavailable("The printer worker is unavailable".to_owned()))
    );
}

#[test]
fn print_replies() {
    assert_eq!(
        print_reply_response(Reply::Received(Ok(()))),
        Ok("Your submission was printed.".to_owned())
    );
    assert_eq!(
        print_reply_response(Reply::Received(Err("IO error: no paper".to_owned()))),
        Err(internal_error("IO error: no paper".to_owned()))
    );
    assert_eq!(
        print_reply_response(Reply::TimedOut),
        Err(api_error(ErrorStatus::GatewayTimeout, "The printer did not respond in time".to_owned()))
    );
    assert_eq!(
        print_reply_response(Reply::Dropped),
        Err(service_unavailable("The printer worker stopped unexpectedly".to_owned()))
    );
}

#[test]
fn status_replies() {
    let status = unavailable("offline".to_owned());
    assert_eq!(status_reply_response(Reply::Received(status.clone())), Ok(status));
    assert_eq!(
        status_reply_response(Reply::TimedOut),
        Err(api_error(ErrorStatus::GatewayTimeout, "The printer status check timed out".to_owned()))
    );
    assert_eq!(
        status_reply_response(Reply::Dropped),
        Err(service_unavailable("The printer worker stopped unexpectedly".to_owned()))
    );
}
