use open_responses::types::{
    Annotation, CreateResponseBody, FunctionCallOutputStatus, FunctionCallStatus, FunctionOutput,
    ImageDetail, Input, Item, LogProb, MessageContent, MessageStatus, ServiceTier, TextParam,
    ToolChoice, ToolChoiceParam, TopLogProb, Truncation, Verbosity,
};
use open_responses::{decode_text, encode_text, DecodeError, Json, JsonNumber, Wire};

fn round_trip(item: &Item) -> Item {
    decode_text::<Item>(&encode_text(item)).unwrap()
}

fn sample_items() -> Vec<Item> {
    vec![
        Item::Message {
            id: Some("m1".to_string()),
            status: Some(MessageStatus::Completed),
            role: open_responses::types::MessageRole::Assistant,
            content: vec![
                MessageContent::OutputText {
                    text: "hi".to_string(),
                    annotations: vec![Annotation::UrlCitation {
                        url: "https://e.x".to_string(),
                        title: "E".to_string(),
                        start_index: 0,
                        end_index: 2,
                    }],
                    logprobs: Some(vec![LogProb {
                        token: "hi".to_string(),
                        logprob: JsonNumber::Decimal("-0.5".to_string()),
                        bytes: vec![104, 105],
                        top_logprobs: vec![TopLogProb {
                            token: "hi".to_string(),
                            logprob: JsonNumber::Int(-1),
                            bytes: vec![104, 105],
                        }],
                    }]),
                },
                MessageContent::image_url_with_detail("https://e.x/i.png", ImageDetail::High),
                MessageContent::file_data("QUJD", None),
                MessageContent::video_url("https://e.x/v.mp4"),
                MessageContent::refusal("no"),
                MessageContent::PlainText { text: "plain".to_string() },
                MessageContent::summary("sum"),
                MessageContent::reasoning("why"),
            ],
        },
        Item::FunctionCall {
            id: None,
            call_id: "call_1".to_string(),
            name: "f".to_string(),
            arguments: "{\"a\":1}".to_string(),
            status: FunctionCallStatus::InProgress,
        },
        Item::FunctionCallOutput {
            id: Some("o1".to_string()),
            call_id: "call_1".to_string(),
            output: FunctionOutput::Text("ok".to_string()),
            status: FunctionCallOutputStatus::Incomplete,
        },
        Item::FunctionCallOutput {
            id: None,
            call_id: "call_2".to_string(),
            output: FunctionOutput::Content(vec![MessageContent::input_text("ok")]),
            status: FunctionCallOutputStatus::Completed,
        },
        Item::Reasoning {
            id: Some("r1".to_string()),
            content: Some(vec![MessageContent::reasoning("step")]),
            summary: vec![MessageContent::summary("short")],
            encrypted_content: Some("xyz".to_string()),
        },
        Item::Reasoning { id: None, content: None, summary: vec![], encrypted_content: None },
        Item::reference("msg_9"),
    ]
}

#[test]
fn every_item_variant_survives_a_round_trip() {
    for item in sample_items() {
        assert_eq!(round_trip(&item), item);
    }
}

#[test]
fn absent_optional_fields_are_left_out() {
    let text = encode_text(&Item::user_message("x"));
    assert!(!text.contains("null"));
    assert!(!text.contains("\"id\""));
    assert!(!text.contains("\"status\""));
}

#[test]
fn single_input_is_a_bare_string() {
    assert_eq!(encode_text(&Input::Single("x".to_string())), "\"x\"");
}

#[test]
fn item_input_is_an_array() {
    let text = encode_text(&Input::Items(vec![Item::reference("a")]));
    assert!(text.starts_with('['));
    assert!(text.ends_with(']'));
    assert_eq!(decode_text::<Input>("\"x\""), Ok(Input::Single("x".to_string())));
    assert!(matches!(decode_text::<Input>(&text), Ok(Input::Items(v)) if v.len() == 1));
    assert!(matches!(decode_text::<Input>("[]"), Ok(Input::Items(v)) if v.is_empty()));
}

#[test]
fn function_output_forms_are_told_apart_by_shape() {
    assert_eq!(decode_text::<FunctionOutput>("\"ok\""), Ok(FunctionOutput::Text("ok".to_string())));
    assert_eq!(
        decode_text::<FunctionOutput>("[{\"type\":\"input_text\",\"text\":\"ok\"}]"),
        Ok(FunctionOutput::Content(vec![MessageContent::input_text("ok")]))
    );
    assert_eq!(decode_text::<FunctionOutput>("42"), Err(DecodeError::Mismatch));
}

#[test]
fn request_defaults_fill_absent_fields() {
    let request: CreateResponseBody = decode_text("{\"model\":\"m\"}").unwrap();
    assert_eq!(request.truncation, Truncation::Auto);
    assert_eq!(request.service_tier, ServiceTier::Auto);
    assert_eq!(request.model, Some("m".to_string()));
    let text: TextParam = decode_text("{}").unwrap();
    assert_eq!(text.verbosity, Verbosity::Medium);
    let nested: CreateResponseBody = decode_text("{\"text\":{}}").unwrap();
    assert_eq!(nested.text.unwrap().verbosity, Verbosity::Medium);
    let given: CreateResponseBody =
        decode_text("{\"truncation\":\"disabled\",\"service_tier\":\"flex\"}").unwrap();
    assert_eq!(given.truncation, Truncation::Disabled);
    assert_eq!(given.service_tier, ServiceTier::Flex);
}

#[test]
fn default_request_writes_only_its_defaults() {
    let text = encode_text(&CreateResponseBody::default());
    assert_eq!(text, "{\"service_tier\":\"auto\",\"truncation\":\"auto\"}");
}

#[test]
fn unknown_discriminant_is_a_typed_error() {
    let r = decode_text::<Item>("{\"type\":\"mystery\",\"id\":\"x\"}");
    assert_eq!(
        r,
        Err(DecodeError::UnknownVariant { union_name: "Item".to_string(), tag: "mystery".to_string() })
    );
}

#[test]
fn malformed_text_is_a_syntax_error() {
    assert_eq!(decode_text::<Item>("{not json"), Err(DecodeError::Syntax));
}

#[test]
fn missing_required_field_is_a_mismatch() {
    assert_eq!(decode_text::<Item>("{\"type\":\"item_reference\"}"), Err(DecodeError::Mismatch));
}

#[test]
fn missing_image_detail_defaults_to_auto() {
    let c: MessageContent =
        decode_text("{\"type\":\"input_image\",\"image_url\":\"u\"}").unwrap();
    assert_eq!(c, MessageContent::image_url("u"));
}

#[test]
fn tool_choice_shapes_are_told_apart() {
    assert_eq!(decode_text::<ToolChoiceParam>("\"required\""), Ok(ToolChoiceParam::Simple(ToolChoice::Required)));
    assert_eq!(
        decode_text::<ToolChoiceParam>("{\"type\":\"function\",\"name\":\"f\"}"),
        Ok(ToolChoiceParam::Specific { tool_type: "function".to_string(), name: "f".to_string() })
    );
    let allowed = decode_text::<ToolChoiceParam>(
        "{\"type\":\"allowed_tools\",\"tools\":[{\"type\":\"function\",\"name\":\"f\"}],\"mode\":\"auto\"}",
    )
    .unwrap();
    assert!(matches!(allowed, ToolChoiceParam::Allowed { tools, mode: ToolChoice::Auto, .. } if tools.len() == 1));
    assert_eq!(ToolChoiceParam::default(), ToolChoiceParam::Simple(ToolChoice::Auto));
}

#[test]
fn numbers_keep_their_form() {
    let j = Json::Number(JsonNumber::Decimal("0.7".to_string()));
    assert_eq!(encode_text(&JsonNumber::Decimal("0.7".to_string())), "0.7");
    assert!(matches!(JsonNumber::from_json(&j), Ok(JsonNumber::Decimal(s)) if s == "0.7"));
    assert_eq!(decode_text::<i32>("150"), Ok(150));
    assert_eq!(decode_text::<i32>("3000000000"), Err(DecodeError::Mismatch));
}

#[test]
fn metadata_reads_as_string_pairs() {
    let m: Vec<(String, String)> = decode_text("{\"a\":\"1\",\"b\":\"2\"}").unwrap();
    assert_eq!(m, vec![("a".to_string(), "1".to_string()), ("b".to_string(), "2".to_string())]);
    assert_eq!(decode_text::<Vec<(String, String)>>("{\"a\":1}"), Err(DecodeError::Mismatch));
}

#[test]
fn unknown_enum_name_is_a_typed_error() {
    assert_eq!(
        decode_text::<open_responses::types::MessageRole>("\"robot\""),
        Err(DecodeError::UnknownVariant { union_name: "MessageRole".to_string(), tag: "robot".to_string() })
    );
    assert_eq!(decode_text::<open_responses::types::MessageRole>("7"), Err(DecodeError::Mismatch));
}

#[test]
fn streamed_event_survives_a_round_trip() {
    let event = open_responses::types::StreamingEvent::FunctionCallArgumentsDone {
        sequence_number: 7,
        item_id: "fc_1".to_string(),
        output_index: 2,
        arguments: "{}".to_string(),
    };
    let back: open_responses::types::StreamingEvent = decode_text(&encode_text(&event)).unwrap();
    assert!(matches!(
        back,
        open_responses::types::StreamingEvent::FunctionCallArgumentsDone { sequence_number: 7, output_index: 2, item_id, arguments }
            if item_id == "fc_1" && arguments == "{}"
    ));
}

#[test]
fn tool_with_parameters_is_written_with_them() {
    let tool = open_responses::types::Tool::function("f")
        .with_parameters(Json::Object(vec![("type".to_string(), Json::Str("object".to_string()))]))
        .strict(false);
    assert_eq!(
        encode_text(&tool),
        "{\"name\":\"f\",\"parameters\":{\"type\":\"object\"},\"strict\":false,\"type\":\"function\"}"
    );
    let mcp = open_responses::types::Tool::mcp("lbl", "https://t").with_allowed_tools(vec!["a".to_string()]);
    assert_eq!(
        encode_text(&mcp),
        "{\"allowed_tools\":[\"a\"],\"server_label\":\"lbl\",\"server_url\":\"https://t\",\"type\":\"mcp\"}"
    );
}

#[test]
fn assistant_message_has_a_bare_output_text_part() {
    let item = Item::assistant_message("I'm doing well!");
    assert_eq!(
        item,
        Item::Message {
            id: None,
            status: None,
            role: open_responses::types::MessageRole::Assistant,
            content: vec![MessageContent::OutputText {
                text: "I'm doing well!".to_string(),
                annotations: vec![],
                logprobs: None,
            }],
        }
    );
}

#[test]
fn function_output_keeps_its_form_through_text() {
    for t in ["[]", "42", "ok"] {
        let item = Item::FunctionCallOutput {
            id: None,
            call_id: "c".to_string(),
            output: FunctionOutput::Text(t.to_string()),
            status: FunctionCallOutputStatus::Completed,
        };
        assert_eq!(round_trip(&item), item);
    }
    let empty = Item::FunctionCallOutput {
        id: None,
        call_id: "c".to_string(),
        output: FunctionOutput::Content(vec![]),
        status: FunctionCallOutputStatus::Completed,
    };
    assert_eq!(round_trip(&empty), empty);
    let no_content = Item::Reasoning { id: None, content: Some(vec![]), summary: vec![], encrypted_content: None };
    assert_eq!(round_trip(&no_content), no_content);
}

#[test]
fn map_with_repeated_key_does_not_read() {
    let j = Json::Object(vec![
        ("a".to_string(), Json::Str("1".to_string())),
        ("a".to_string(), Json::Str("2".to_string())),
    ]);
    assert_eq!(<Vec<(String, String)> as Wire>::from_json(&j), Err(DecodeError::Mismatch));
}
