use rust_me::error::{DecodeError, EventKind};
use rust_me::event::{classify, decode, StreamEvent};
use rust_me::json::{Json, Member};

fn malformed(kind: EventKind) -> Result<StreamEvent, DecodeError> {
    Err(DecodeError::Malformed(kind))
}

#[test]
fn decode_reads_a_progress_event() {
    assert_eq!(
        decode(r#"{"type":"progress","data":{"value":3,"max":20}}"#),
        Ok(StreamEvent::Progress { value: "3".to_string() })
    );
    assert_eq!(
        decode(r#"{"type":"progress","data":{"value":0.25}}"#),
        Ok(StreamEvent::Progress { value: "0.25".to_string() })
    );
}

#[test]
fn decode_rejects_a_progress_event_without_a_number() {
    assert_eq!(decode(r#"{"type":"progress","data":{}}"#), malformed(EventKind::Progress));
    assert_eq!(decode(r#"{"type":"progress"}"#), malformed(EventKind::Progress));
    assert_eq!(
        decode(r#"{"type":"progress","data":{"value":"3"}}"#),
        malformed(EventKind::Progress)
    );
    assert_eq!(
        decode(r#"{"type":"progress","data":{"value":null}}"#),
        malformed(EventKind::Progress)
    );
    assert_eq!(decode(r#"{"type":"progress","data":[3]}"#), malformed(EventKind::Progress));
}

#[test]
fn decode_reads_an_executing_event() {
    assert_eq!(
        decode(r#"{"type":"executing","data":{"node":"12"}}"#),
        Ok(StreamEvent::Executing { node: Some("12".to_string()) })
    );
}

#[test]
fn decode_reads_an_idle_executing_event() {
    let idle = Ok(StreamEvent::Executing { node: None });
    assert_eq!(decode(r#"{"type":"executing","data":{"node":null}}"#), idle);
    assert_eq!(decode(r#"{"type":"executing","data":{}}"#), idle);
    assert_eq!(decode(r#"{"type":"executing"}"#), idle);
}

#[test]
fn decode_rejects_an_executing_event_with_a_strange_node() {
    assert_eq!(
        decode(r#"{"type":"executing","data":{"node":12}}"#),
        malformed(EventKind::Executing)
    );
    assert_eq!(
        decode(r#"{"type":"executing","data":{"node":["a"]}}"#),
        malformed(EventKind::Executing)
    );
    assert_eq!(
        decode(r#"{"type":"executing","data":{"node":false}}"#),
        malformed(EventKind::Executing)
    );
}

#[test]
fn decode_reads_an_executed_event() {
    assert_eq!(
        decode(
            r#"{"type":"executed","data":{"node":"9","output":{"images":[{"filename":"out_1.png","type":"output"},{"filename":"out_2.png"}]}}}"#
        ),
        Ok(StreamEvent::Executed { output_name: "out_1.png".to_string() })
    );
}

#[test]
fn decode_rejects_an_executed_event_without_an_artifact() {
    let bad = malformed(EventKind::Executed);
    assert_eq!(decode(r#"{"type":"executed"}"#), bad);
    assert_eq!(decode(r#"{"type":"executed","data":{}}"#), bad);
    assert_eq!(decode(r#"{"type":"executed","data":{"output":{}}}"#), bad);
    assert_eq!(decode(r#"{"type":"executed","data":{"output":{"images":[]}}}"#), bad);
    assert_eq!(decode(r#"{"type":"executed","data":{"output":{"images":[{}]}}}"#), bad);
    assert_eq!(
        decode(r#"{"type":"executed","data":{"output":{"images":[{"filename":7}]}}}"#),
        bad
    );
    assert_eq!(
        decode(r#"{"type":"executed","data":{"output":{"images":{"filename":"a"}}}}"#),
        bad
    );
}

#[test]
fn decode_reads_a_status_event() {
    assert_eq!(
        decode(r#"{"type":"status","data":{"status":{"exec_info":{"queue_remaining":1}}}}"#),
        Ok(StreamEvent::Status { queue_remaining: 1 })
    );
    assert_eq!(
        decode(r#"{"type":"status","data":{"status":{"exec_info":{"queue_remaining":0}}}}"#),
        Ok(StreamEvent::Status { queue_remaining: 0 })
    );
    assert_eq!(
        decode(
            r#"{"type":"status","data":{"status":{"exec_info":{"queue_remaining":18446744073709551615}}}}"#
        ),
        Ok(StreamEvent::Status { queue_remaining: u64::MAX })
    );
}

#[test]
fn decode_rejects_a_status_event_without_a_queue_depth() {
    let bad = malformed(EventKind::Status);
    assert_eq!(decode(r#"{"type":"status"}"#), bad);
    assert_eq!(decode(r#"{"type":"status","data":{}}"#), bad);
    assert_eq!(decode(r#"{"type":"status","data":{"status":{}}}"#), bad);
    assert_eq!(decode(r#"{"type":"status","data":{"status":{"exec_info":{}}}}"#), bad);
    assert_eq!(
        decode(r#"{"type":"status","data":{"status":{"exec_info":{"queue_remaining":null}}}}"#),
        bad
    );
}

#[test]
fn decode_rejects_a_status_event_whose_queue_depth_is_no_natural_number() {
    let bad = malformed(EventKind::Status);
    assert_eq!(
        decode(r#"{"type":"status","data":{"status":{"exec_info":{"queue_remaining":"0"}}}}"#),
        bad
    );
    assert_eq!(
        decode(r#"{"type":"status","data":{"status":{"exec_info":{"queue_remaining":-1}}}}"#),
        bad
    );
    assert_eq!(
        decode(r#"{"type":"status","data":{"status":{"exec_info":{"queue_remaining":1.5}}}}"#),
        bad
    );
    assert_eq!(
        decode(r#"{"type":"status","data":{"status":{"exec_info":{"queue_remaining":0.0}}}}"#),
        bad
    );
    assert_eq!(
        decode(
            r#"{"type":"status","data":{"status":{"exec_info":{"queue_remaining":18446744073709551616}}}}"#
        ),
        bad
    );
    assert_eq!(
        decode(r#"{"type":"status","data":{"status":{"exec_info":{"queue_remaining":[0]}}}}"#),
        bad
    );
}

#[test]
fn decode_takes_an_unknown_tag_as_unrecognized() {
    let unknown = Ok(StreamEvent::Unrecognized);
    assert_eq!(decode(r#"{"type":"crystools.monitor","data":{"cpu":3}}"#), unknown);
    assert_eq!(decode(r#"{"type":"execution_start","data":{}}"#), unknown);
    assert_eq!(decode(r#"{"type":"Status","data":{}}"#), unknown);
    assert_eq!(decode(r#"{"type":"status "}"#), unknown);
    assert_eq!(decode(r#"{"type":""}"#), unknown);
}

#[test]
fn decode_takes_a_document_without_a_tag_as_unrecognized() {
    let unknown = Ok(StreamEvent::Unrecognized);
    assert_eq!(decode(r#"{}"#), unknown);
    assert_eq!(decode(r#"{"data":{"value":3}}"#), unknown);
    assert_eq!(decode(r#"{"type":5}"#), unknown);
    assert_eq!(decode(r#"{"type":null}"#), unknown);
    assert_eq!(decode(r#"{"type":["status"]}"#), unknown);
    assert_eq!(decode(r#"[1,2]"#), unknown);
    assert_eq!(decode(r#""status""#), unknown);
    assert_eq!(decode(r#"17"#), unknown);
}

#[test]
fn decode_rejects_text_that_is_no_document() {
    assert_eq!(decode(""), Err(DecodeError::InvalidDocument));
    assert_eq!(decode("status"), Err(DecodeError::InvalidDocument));
    assert_eq!(decode(r#"{"type":"status""#), Err(DecodeError::InvalidDocument));
    assert_eq!(decode(r#"{"type":"bogus",}"#), Err(DecodeError::InvalidDocument));
}

#[test]
fn classify_reads_a_document_written_by_hand() {
    let doc = Json::Object(vec![
        Member { name: "type".to_string(), value: Json::Text("progress".to_string()) },
        Member {
            name: "data".to_string(),
            value: Json::Object(vec![Member {
                name: "value".to_string(),
                value: Json::Number("7".to_string()),
            }]),
        },
    ]);
    assert_eq!(classify(&doc), Ok(StreamEvent::Progress { value: "7".to_string() }));
}

#[test]
fn classify_goes_by_the_last_tag() {
    let doc = Json::Object(vec![
        Member { name: "type".to_string(), value: Json::Text("status".to_string()) },
        Member { name: "type".to_string(), value: Json::Text("other".to_string()) },
    ]);
    assert_eq!(classify(&doc), Ok(StreamEvent::Unrecognized));
}

#[test]
fn is_final_holds_of_an_empty_queue_only() {
    assert!(StreamEvent::Status { queue_remaining: 0 }.is_final());
    assert!(!StreamEvent::Status { queue_remaining: 1 }.is_final());
    assert!(!StreamEvent::Progress { value: "0".to_string() }.is_final());
    assert!(!StreamEvent::Executing { node: None }.is_final());
    assert!(!StreamEvent::Executed { output_name: "0".to_string() }.is_final());
    assert!(!StreamEvent::Unrecognized.is_final());
}

#[test]
fn describe_writes_one_line_for_each_kind() {
    assert_eq!(StreamEvent::Progress { value: "3".to_string() }.describe(), "progress: 3");
    assert_eq!(
        StreamEvent::Executing { node: Some("12".to_string()) }.describe(),
        "executing: 12"
    );
    assert_eq!(StreamEvent::Executing { node: None }.describe(), "executing: idle");
    assert_eq!(
        StreamEvent::Executed { output_name: "out_1.png".to_string() }.describe(),
        "executed: out_1.png"
    );
    assert_eq!(StreamEvent::Status { queue_remaining: 0 }.describe(), "queue remaining: 0");
    assert_eq!(StreamEvent::Status { queue_remaining: 41 }.describe(), "queue remaining: 41");
    assert_eq!(StreamEvent::Unrecognized.describe(), "unrecognized message");
}
