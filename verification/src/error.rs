//! What can go wrong while a job is submitted and followed.

use vstd::prelude::*;

verus! {

/// The kinds of event whose shape the client knows.
#[derive(Clone, Copy, Debug, PartialEq, Eq, Structural)]
pub enum EventKind {
    Progress,
    Executing,
    Executed,
    Status,
}

/// Why a message could not be decoded.
#[derive(Clone, Copy, Debug, PartialEq, Eq, Structural)]
pub enum DecodeError {
    /// The text is not a JSON document.
    InvalidDocument,
    /// The message carries a known type tag, but a field that events of that
    /// kind must have is missing or has the wrong shape.
    Malformed(EventKind),
}

/// The part of a job attempt in which something went wrong.
#[derive(Clone, Copy, Debug, PartialEq, Eq, Structural)]
pub enum Stage {
    /// Reading the job description.
    Read,
    /// Sending the job to the service.
    Submit,
    /// Following the event stream.
    Stream,
}

/// What went wrong.
#[derive(Clone, Copy, Debug, PartialEq, Eq, Structural)]
pub enum ClientError {
    /// A file could not be read or written.
    Io,
    /// A document or a message could not be decoded.
    Decode(DecodeError),
    /// The job could not be written as JSON.
    Encoding,
    /// The job could not be sent.
    Submission,
    /// The stream could not be set up, or it was lost before the end.
    Connection,
    /// Nothing arrived on the stream within the time allowed.
    Inactivity,
}

} // verus!
