//! How a job attempt ended, and what the user is told about it.

use crate::error::{ClientError, DecodeError, EventKind, Stage};
use crate::listener::{Failure, Termination};
use crate::text::join;
use vstd::prelude::*;

verus! {

/// The error that a listener's failure is to the caller.
pub open spec fn error_of(failure: Failure) -> ClientError {
    match failure {
        Failure::Connection => ClientError::Connection,
        Failure::Decode(error) => ClientError::Decode(error),
        Failure::Inactivity => ClientError::Inactivity,
    }
}

/// The error that a listener's failure is to the caller.
pub fn stream_error(failure: Failure) -> (error: ClientError)
    ensures
        error == error_of(failure),
{
    match failure {
        Failure::Connection => ClientError::Connection,
        Failure::Decode(error) => ClientError::Decode(error),
        Failure::Inactivity => ClientError::Inactivity,
    }
}

/// How a job attempt ended: the reason of a regular end, or the stage that
/// failed and the error.
pub type JobOutcome = Result<Termination, (Stage, ClientError)>;

/// The exit status of the process for the end of a job attempt: zero for a
/// job that ran to completion and for nothing else.
pub open spec fn exit_code_spec(outcome: JobOutcome) -> u8 {
    if outcome == Ok::<Termination, (Stage, ClientError)>(Termination::Completed) {
        0
    } else {
        1
    }
}

/// The exit status of the process for the end of a job attempt.
pub fn exit_code(outcome: JobOutcome) -> (code: u8)
    ensures
        code == exit_code_spec(outcome),
{
    match outcome {
        Ok(Termination::Completed) => 0,
        _ => 1,
    }
}

/// The name of a stage in messages.
pub open spec fn stage_name(stage: Stage) -> Seq<char> {
    match stage {
        Stage::Read => "read"@,
        Stage::Submit => "submit"@,
        Stage::Stream => "stream"@,
    }
}

/// The name of an event kind in messages.
pub open spec fn kind_name(kind: EventKind) -> Seq<char> {
    match kind {
        EventKind::Progress => "progress"@,
        EventKind::Executing => "executing"@,
        EventKind::Executed => "executed"@,
        EventKind::Status => "status"@,
    }
}

/// The cause of an error in words.
pub open spec fn cause_of(error: ClientError) -> Seq<char> {
    match error {
        ClientError::Io => "file access failed"@,
        ClientError::Decode(DecodeError::InvalidDocument) => "not a JSON document"@,
        ClientError::Decode(DecodeError::Malformed(kind)) => "malformed message of type "@
            + kind_name(kind),
        ClientError::Encoding => "the job cannot be written as JSON"@,
        ClientError::Submission => "the job could not be sent"@,
        ClientError::Connection => "the connection failed"@,
        ClientError::Inactivity => "the service went silent"@,
    }
}

/// The line that reports a failure: the stage, a colon and the cause.
pub open spec fn failure_line_spec(stage: Stage, error: ClientError) -> Seq<char> {
    stage_name(stage) + ": "@ + cause_of(error)
}

fn stage_text(stage: Stage) -> (name: &'static str)
    ensures
        name@ == stage_name(stage),
{
    match stage {
        Stage::Read => "read",
        Stage::Submit => "submit",
        Stage::Stream => "stream",
    }
}

fn kind_text(kind: EventKind) -> (name: &'static str)
    ensures
        name@ == kind_name(kind),
{
    match kind {
        EventKind::Progress => "progress",
        EventKind::Executing => "executing",
        EventKind::Executed => "executed",
        EventKind::Status => "status",
    }
}

fn cause_text(error: ClientError) -> (cause: String)
    ensures
        cause@ == cause_of(error),
{
    match error {
        ClientError::Io => "file access failed".to_owned(),
        ClientError::Decode(DecodeError::InvalidDocument) => "not a JSON document".to_owned(),
        ClientError::Decode(DecodeError::Malformed(kind)) => join(
            "malformed message of type ",
            kind_text(kind),
        ),
        ClientError::Encoding => "the job cannot be written as JSON".to_owned(),
        ClientError::Submission => "the job could not be sent".to_owned(),
        ClientError::Connection => "the connection failed".to_owned(),
        ClientError::Inactivity => "the service went silent".to_owned(),
    }
}

/// Writes the line that reports a failure.
pub fn failure_line(stage: Stage, error: ClientError) -> (line: String)
    ensures
        line@ == failure_line_spec(stage, error),
{
    let head = join(stage_text(stage), ": ");
    let cause = cause_text(error);
    join(head.as_str(), cause.as_str())
}

/// The line that reports the end of a job attempt, where it failed.
pub fn failure_report(outcome: JobOutcome) -> (line: Option<String>)
    ensures
        match outcome {
            Ok(_) => line is None,
            Err((stage, error)) => line matches Some(text) && text@ == failure_line_spec(
                stage,
                error,
            ),
        },
{
    match outcome {
        Ok(_) => None,
        Err((stage, error)) => Some(failure_line(stage, error)),
    }
}

} // verus!
