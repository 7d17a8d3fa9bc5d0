use open_responses::streaming::{decode_frame, DecoderState, Frame};
use open_responses::types::{ErrorPayload, StreamingEvent};
use open_responses::{DecodeError, EventDecoder, StreamingError};

const DELTA: &str = r#"{"type":"response.output_text.delta", "sequence_number":1, "item_id":"m1","output_index":0,"content_index":0,"delta":"Hi"}"#;

#[test]
fn delta_then_done_yields_two_values_and_ends() {
    let mut d = EventDecoder::new();
    let first = d.next_event(Frame::Data(DELTA.to_string()));
    match first {
        Some(Ok(StreamingEvent::OutputTextDelta { delta, sequence_number, item_id, .. })) => {
            assert_eq!(delta, "Hi");
            assert_eq!(sequence_number, 1);
            assert_eq!(item_id, "m1");
        }
        other => panic!("unexpected {:?}", other),
    }
    assert!(matches!(d.next_event(Frame::Data("[DONE]".to_string())), Some(Ok(StreamingEvent::Done))));
    assert!(d.is_finished());
    assert_eq!(d.state(), DecoderState::Done);
    assert!(d.next_event(Frame::Data(DELTA.to_string())).is_none());
}

#[test]
fn unknown_event_type_fails_only_its_frame() {
    let mut d = EventDecoder::new();
    let bad = d.next_event(Frame::Data(r#"{"type":"response.unknown_thing","sequence_number":3}"#.to_string()));
    assert!(matches!(
        bad,
        Some(Err(StreamingError::JsonError(DecodeError::UnknownVariant { tag, .. }))) if tag == "response.unknown_thing"
    ));
    assert!(!d.is_finished());
    assert!(matches!(d.next_event(Frame::Data(DELTA.to_string())), Some(Ok(StreamingEvent::OutputTextDelta { .. }))));
}

#[test]
fn malformed_frame_does_not_end_the_stream() {
    let mut d = EventDecoder::new();
    assert!(matches!(
        d.next_event(Frame::Data("{oops".to_string())),
        Some(Err(StreamingError::JsonError(DecodeError::Syntax)))
    ));
    assert_eq!(d.state(), DecoderState::Streaming);
}

#[test]
fn in_band_error_is_an_event() {
    let frame = r#"{"type":"error","sequence_number":2,"error":{"type":"server_error","message":"boom","code":null,"param":null}}"#;
    let r = decode_frame(frame);
    match r {
        Ok(StreamingEvent::Error { sequence_number, error }) => {
            assert_eq!(sequence_number, 2);
            assert_eq!(
                error,
                ErrorPayload {
                    error_type: "server_error".to_string(),
                    code: None,
                    message: "boom".to_string(),
                    param: None,
                    headers: None
                }
            );
        }
        other => panic!("unexpected {:?}", other),
    }
}

#[test]
fn transport_failure_ends_the_stream() {
    let mut d = EventDecoder::new();
    assert!(matches!(
        d.next_event(Frame::Failure("reset".to_string())),
        Some(Err(StreamingError::StreamError(m))) if m == "reset"
    ));
    assert_eq!(d.state(), DecoderState::Failed);
    assert!(d.next_event(Frame::Data(DELTA.to_string())).is_none());
}

#[test]
fn transport_end_finishes_without_a_value() {
    let mut d = EventDecoder::new();
    assert!(d.next_event(Frame::End).is_none());
    assert_eq!(d.state(), DecoderState::Done);
}

#[test]
fn unknown_event_type_names_the_union() {
    let r = decode_frame(r#"{"type":"response.unknown_thing","sequence_number":3}"#);
    assert!(matches!(
        r,
        Err(StreamingError::JsonError(DecodeError::UnknownVariant { union_name, tag }))
            if union_name == "StreamingEvent" && tag == "response.unknown_thing"
    ));
}

#[test]
fn refused_stream_carries_the_body() {
    assert_eq!(
        open_responses::streaming::stream_opening(429, "rate limited".to_string()),
        Err(StreamingError::ApiError { message: "rate limited".to_string() })
    );
    assert_eq!(open_responses::streaming::stream_opening(200, String::new()), Ok(()));
}
