use rust_me::error::{ClientError, DecodeError, EventKind, Stage};
use rust_me::listener::{Failure, Termination};
use rust_me::report::{exit_code, failure_line, failure_report, stream_error};

#[test]
fn exit_code_is_zero_for_a_completed_job_only() {
    assert_eq!(exit_code(Ok(Termination::Completed)), 0);
    assert_ne!(exit_code(Ok(Termination::Cancelled)), 0);
    for stage in [Stage::Read, Stage::Submit, Stage::Stream] {
        for error in [
            ClientError::Io,
            ClientError::Decode(DecodeError::InvalidDocument),
            ClientError::Decode(DecodeError::Malformed(EventKind::Status)),
            ClientError::Encoding,
            ClientError::Submission,
            ClientError::Connection,
            ClientError::Inactivity,
        ] {
            assert_eq!(exit_code(Err((stage, error))), 1);
        }
    }
}

#[test]
fn failure_report_has_a_line_for_failures_only() {
    assert_eq!(failure_report(Ok(Termination::Completed)), None);
    assert_eq!(failure_report(Ok(Termination::Cancelled)), None);
    assert_eq!(
        failure_report(Err((Stage::Submit, ClientError::Submission))),
        Some("submit: the job could not be sent".to_string())
    );
    assert_eq!(
        failure_report(Err((Stage::Read, ClientError::Io))),
        Some("read: file access failed".to_string())
    );
}

#[test]
fn stream_error_keeps_the_cause() {
    assert_eq!(stream_error(Failure::Connection), ClientError::Connection);
    assert_eq!(stream_error(Failure::Inactivity), ClientError::Inactivity);
    assert_eq!(
        stream_error(Failure::Decode(DecodeError::Malformed(EventKind::Executed))),
        ClientError::Decode(DecodeError::Malformed(EventKind::Executed))
    );
    assert_eq!(
        stream_error(Failure::Decode(DecodeError::InvalidDocument)),
        ClientError::Decode(DecodeError::InvalidDocument)
    );
}

#[test]
fn failure_line_names_stage_and_cause() {
    assert_eq!(failure_line(Stage::Read, ClientError::Io), "read: file access failed");
    assert_eq!(
        failure_line(Stage::Read, ClientError::Decode(DecodeError::InvalidDocument)),
        "read: not a JSON document"
    );
    assert_eq!(
        failure_line(Stage::Submit, ClientError::Encoding),
        "submit: the job cannot be written as JSON"
    );
    assert_eq!(
        failure_line(Stage::Submit, ClientError::Submission),
        "submit: the job could not be sent"
    );
    assert_eq!(
        failure_line(Stage::Stream, ClientError::Connection),
        "stream: the connection failed"
    );
    assert_eq!(
        failure_line(Stage::Stream, ClientError::Inactivity),
        "stream: the service went silent"
    );
}

#[test]
fn failure_line_names_the_kind_of_a_malformed_message() {
    for (kind, name) in [
        (EventKind::Progress, "progress"),
        (EventKind::Executing, "executing"),
        (EventKind::Executed, "executed"),
        (EventKind::Status, "status"),
    ] {
        assert_eq!(
            failure_line(Stage::Stream, ClientError::Decode(DecodeError::Malformed(kind))),
            format!("stream: malformed message of type {}", name)
        );
    }
}
