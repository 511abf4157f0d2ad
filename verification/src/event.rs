//! The events of a job's stream and how a wire message is decoded into one.

use crate::error::{DecodeError, EventKind};
use crate::json::{element, field, field_of, item_of, parsed_document, Json, JsonView};
use crate::text::{decimal_text, join, natural_of, numeral_of, parse_natural, same_text};
use vstd::prelude::*;

verus! {

/// One message of the event stream, decoded.
#[derive(Clone, Debug, PartialEq, Eq)]
pub enum StreamEvent {
    /// A step of the running node was done; `value` is the step count as the
    /// service wrote it.
    Progress { value: String },
    /// The service moved on to `node`; `None` marks the idle state between
    /// two stages.
    Executing { node: Option<String> },
    /// A node finished and produced the artifact `output_name`.
    Executed { output_name: String },
    /// The number of jobs that are still queued or running.
    Status { queue_remaining: u64 },
    /// A message with a type tag that this client does not know.
    Unrecognized,
}

/// The mathematical value of a [`StreamEvent`].
pub enum StreamEventView {
    Progress { value: Seq<char> },
    Executing { node: Option<Seq<char>> },
    Executed { output_name: Seq<char> },
    Status { queue_remaining: u64 },
    Unrecognized,
}

impl View for StreamEvent {
    type V = StreamEventView;

    open spec fn view(&self) -> StreamEventView {
        match self {
            StreamEvent::Progress { value } => StreamEventView::Progress { value: value@ },
            StreamEvent::Executing { node } => StreamEventView::Executing {
                node: match node {
                    Some(id) => Some(id@),
                    None => None,
                },
            },
            StreamEvent::Executed { output_name } => StreamEventView::Executed {
                output_name: output_name@,
            },
            StreamEvent::Status { queue_remaining } => StreamEventView::Status {
                queue_remaining: *queue_remaining,
            },
            StreamEvent::Unrecognized => StreamEventView::Unrecognized,
        }
    }
}

impl StreamEventView {
    /// Whether this is the one event that ends a job's stream: a status with
    /// nothing left in the queue.
    pub open spec fn is_final(self) -> bool {
        self == (StreamEventView::Status { queue_remaining: 0 })
    }
}

/// What decoding gives: an event or the reason why there is none.
pub type Decoded = Result<StreamEventView, DecodeError>;

/// The mathematical value of the outcome of a decoding.
pub open spec fn decoded_view(outcome: Result<StreamEvent, DecodeError>) -> Decoded {
    match outcome {
        Ok(event) => Ok(event@),
        Err(error) => Err(error),
    }
}

/// A progress event from the `data` of a message: `data.value` has to be a
/// number.
pub open spec fn progress_of(data: Option<JsonView>) -> Decoded {
    match field_of(data, "value"@) {
        Some(JsonView::Number(text)) => Ok(StreamEventView::Progress { value: text }),
        _ => Err(DecodeError::Malformed(EventKind::Progress)),
    }
}

/// An executing event from the `data` of a message: `data.node` is a string,
/// or it is `null` or absent and there is no active node.
pub open spec fn executing_of(data: Option<JsonView>) -> Decoded {
    match field_of(data, "node"@) {
        None => Ok(StreamEventView::Executing { node: None }),
        Some(JsonView::Null) => Ok(StreamEventView::Executing { node: None }),
        Some(JsonView::Text(id)) => Ok(StreamEventView::Executing { node: Some(id) }),
        _ => Err(DecodeError::Malformed(EventKind::Executing)),
    }
}

/// An executed event from the `data` of a message:
/// `data.output.images[0].filename` has to be a string.
pub open spec fn executed_of(data: Option<JsonView>) -> Decoded {
    match field_of(
        item_of(field_of(field_of(data, "output"@), "images"@), 0),
        "filename"@,
    ) {
        Some(JsonView::Text(name)) => Ok(StreamEventView::Executed { output_name: name }),
        _ => Err(DecodeError::Malformed(EventKind::Executed)),
    }
}

/// Where the `data` of a status message holds the queue depth:
/// `data.status.exec_info.queue_remaining`.
pub open spec fn queue_field_of(data: Option<JsonView>) -> Option<JsonView> {
    field_of(field_of(field_of(data, "status"@), "exec_info"@), "queue_remaining"@)
}

/// A status event from the `data` of a message: the queue depth has to be a
/// natural number that fits in 64 bits.
pub open spec fn status_of(data: Option<JsonView>) -> Decoded {
    match queue_field_of(data) {
        Some(JsonView::Number(text)) => match natural_of(text) {
            Some(n) => Ok(StreamEventView::Status { queue_remaining: n }),
            None => Err(DecodeError::Malformed(EventKind::Status)),
        },
        _ => Err(DecodeError::Malformed(EventKind::Status)),
    }
}

/// The event that a message document stands for. The member `type` picks the
/// kind; a document without a known tag there is an unrecognized message, not
/// an error.
pub open spec fn classify_spec(doc: JsonView) -> Decoded {
    let data = doc.get("data"@);
    match doc.get("type"@) {
        Some(JsonView::Text(tag)) => {
            if tag == "progress"@ {
                progress_of(data)
            } else if tag == "executing"@ {
                executing_of(data)
            } else if tag == "executed"@ {
                executed_of(data)
            } else if tag == "status"@ {
                status_of(data)
            } else {
                Ok(StreamEventView::Unrecognized)
            }
        },
        _ => Ok(StreamEventView::Unrecognized),
    }
}

/// Whether `tag` is one of the type tags that the client knows.
pub open spec fn is_known_tag(tag: Seq<char>) -> bool {
    tag == "progress"@ || tag == "executing"@ || tag == "executed"@ || tag == "status"@
}

/// A message without a known type tag is an unrecognized message and never an
/// error, whatever else it holds.
pub proof fn lemma_unknown_tag_is_unrecognized(doc: JsonView)
    requires
        !(doc.get("type"@) matches Some(JsonView::Text(tag)) && is_known_tag(tag)),
    ensures
        classify_spec(doc) == Ok::<StreamEventView, DecodeError>(StreamEventView::Unrecognized),
{
}

/// A message with a known type tag is an event of that kind or an error: a
/// malformed one is never passed off as unrecognized.
pub proof fn lemma_known_tag_is_never_unrecognized(doc: JsonView)
    requires
        doc.get("type"@) matches Some(JsonView::Text(tag)) && is_known_tag(tag),
    ensures
        classify_spec(doc) != Ok::<StreamEventView, DecodeError>(StreamEventView::Unrecognized),
{
}

/// A message tagged as a status is an error, and no other event, unless its
/// queue depth is there and is a natural number that fits in 64 bits.
pub proof fn lemma_status_needs_queue_depth(doc: JsonView)
    requires
        doc.get("type"@) == Some(JsonView::Text("status"@)),
    ensures
        match queue_field_of(doc.get("data"@)) {
            Some(JsonView::Number(text)) => match natural_of(text) {
                Some(n) => classify_spec(doc) == Ok::<StreamEventView, DecodeError>(
                    StreamEventView::Status { queue_remaining: n },
                ),
                None => classify_spec(doc) == Err::<StreamEventView, DecodeError>(
                    DecodeError::Malformed(EventKind::Status),
                ),
            },
            _ => classify_spec(doc) == Err::<StreamEventView, DecodeError>(
                DecodeError::Malformed(EventKind::Status),
            ),
        },
{
    reveal_strlit("progress");
    reveal_strlit("executing");
    reveal_strlit("executed");
    reveal_strlit("status");
    assert("status"@.len() == 6);
    assert("progress"@.len() == 8);
    assert("executing"@.len() == 9);
    assert("executed"@.len() == 8);
}

/// The outcome of decoding the text of a message.
pub open spec fn decode_spec(text: Seq<char>) -> Decoded {
    match parsed_document(text) {
        Some(doc) => classify_spec(doc),
        None => Err(DecodeError::InvalidDocument),
    }
}

fn progress_from(data: Option<&Json>) -> (outcome: Result<StreamEvent, DecodeError>)
    ensures
        decoded_view(outcome) == progress_of(crate::json::view_of(data)),
{
    match field(data, "value") {
        Some(Json::Number(text)) => Ok(StreamEvent::Progress { value: text.clone() }),
        _ => Err(DecodeError::Malformed(EventKind::Progress)),
    }
}

fn executing_from(data: Option<&Json>) -> (outcome: Result<StreamEvent, DecodeError>)
    ensures
        decoded_view(outcome) == executing_of(crate::json::view_of(data)),
{
    match field(data, "node") {
        None => Ok(StreamEvent::Executing { node: None }),
        Some(Json::Null) => Ok(StreamEvent::Executing { node: None }),
        Some(Json::Text(id)) => Ok(StreamEvent::Executing { node: Some(id.clone()) }),
        _ => Err(DecodeError::Malformed(EventKind::Executing)),
    }
}

fn executed_from(data: Option<&Json>) -> (outcome: Result<StreamEvent, DecodeError>)
    ensures
        decoded_view(outcome) == executed_of(crate::json::view_of(data)),
{
    let first = element(field(field(data, "output"), "images"), 0);
    match field(first, "filename") {
        Some(Json::Text(name)) => Ok(StreamEvent::Executed { output_name: name.clone() }),
        _ => Err(DecodeError::Malformed(EventKind::Executed)),
    }
}

fn status_from(data: Option<&Json>) -> (outcome: Result<StreamEvent, DecodeError>)
    ensures
        decoded_view(outcome) == status_of(crate::json::view_of(data)),
{
    match field(field(field(data, "status"), "exec_info"), "queue_remaining") {
        Some(Json::Number(text)) => match parse_natural(text.as_str()) {
            Some(n) => Ok(StreamEvent::Status { queue_remaining: n }),
            None => Err(DecodeError::Malformed(EventKind::Status)),
        },
        _ => Err(DecodeError::Malformed(EventKind::Status)),
    }
}

/// Maps a message document to the event that it stands for.
pub fn classify(doc: &Json) -> (outcome: Result<StreamEvent, DecodeError>)
    ensures
        decoded_view(outcome) == classify_spec(doc@),
{
    let data = doc.get("data");
    match doc.get("type") {
        Some(Json::Text(tag)) => {
            if same_text(tag.as_str(), "progress") {
                progress_from(data)
            } else if same_text(tag.as_str(), "executing") {
                executing_from(data)
            } else if same_text(tag.as_str(), "executed") {
                executed_from(data)
            } else if same_text(tag.as_str(), "status") {
                status_from(data)
            } else {
                Ok(StreamEvent::Unrecognized)
            }
        },
        _ => Ok(StreamEvent::Unrecognized),
    }
}

/// Decodes the text of one message of the stream.
pub fn decode(text: &str) -> (outcome: Result<StreamEvent, DecodeError>)
    ensures
        decoded_view(outcome) == decode_spec(text@),
{
    match Json::parse(text) {
        Ok(doc) => classify(&doc),
        Err(error) => Err(error),
    }
}

/// The line that tells a person about an event.
pub open spec fn line_of(event: StreamEventView) -> Seq<char> {
    match event {
        StreamEventView::Progress { value } => "progress: "@ + value,
        StreamEventView::Executing { node: Some(id) } => "executing: "@ + id,
        StreamEventView::Executing { node: None } => "executing: idle"@,
        StreamEventView::Executed { output_name } => "executed: "@ + output_name,
        StreamEventView::Status { queue_remaining } => "queue remaining: "@ + numeral_of(
            queue_remaining as nat,
        ),
        StreamEventView::Unrecognized => "unrecognized message"@,
    }
}

impl StreamEvent {
    /// Whether this is the one event that ends a job's stream.
    pub fn is_final(&self) -> (last: bool)
        ensures
            last == self@.is_final(),
    {
        match self {
            StreamEvent::Status { queue_remaining } => *queue_remaining == 0,
            _ => false,
        }
    }

    /// Writes the line that tells a person about this event.
    pub fn describe(&self) -> (line: String)
        ensures
            line@ == line_of(self@),
    {
        match self {
            StreamEvent::Progress { value } => join("progress: ", value.as_str()),
            StreamEvent::Executing { node: Some(id) } => join("executing: ", id.as_str()),
            StreamEvent::Executing { node: None } => "executing: idle".to_owned(),
            StreamEvent::Executed { output_name } => join("executed: ", output_name.as_str()),
            StreamEvent::Status { queue_remaining } => {
                let count = decimal_text(*queue_remaining);
                join("queue remaining: ", count.as_str())
            },
            StreamEvent::Unrecognized => "unrecognized message".to_owned(),
        }
    }
}

} // verus!
