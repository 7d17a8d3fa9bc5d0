use open_responses::client::{
    bearer, normalize_base_url, raw_from_http, response_from_http, responses_url,
    status_code_text, streaming_request,
};
use open_responses::types::CreateResponseBody;
use open_responses::{ClientBuilder, ClientError, DecodeError, StreamingClientBuilder};

#[test]
fn test_client_creation() {
    let client = ClientBuilder::new("test-api-key");
    assert_eq!(client.api_key(), "test-api-key");
    assert_eq!(client.resolved_base_url(), "https://api.openai.com/v1");
}

#[test]
fn test_client_with_base_url_normalization() {
    // Domain only
    let client = ClientBuilder::new("test-key").base_url("https://openrouter.ai/api");
    assert_eq!(client.resolved_base_url(), "https://openrouter.ai/api/v1");

    // Already includes v1
    let client = ClientBuilder::new("test-key").base_url("https://openrouter.ai/api/v1");
    assert_eq!(client.resolved_base_url(), "https://openrouter.ai/api/v1");

    // Localhost
    let client = ClientBuilder::new("test-key").base_url("http://localhost:1234");
    assert_eq!(client.resolved_base_url(), "http://localhost:1234/v1");
}

#[test]
fn test_streaming_client_creation() {
    let client = StreamingClientBuilder::new("test-api-key");
    assert_eq!(client.api_key(), "test-api-key");
    assert_eq!(client.resolved_base_url(), "https://api.openai.com/v1");
}

#[test]
fn test_streaming_client_with_base_url_normalization() {
    let client = StreamingClientBuilder::new("test-key").base_url("https://openrouter.ai/api");
    assert_eq!(client.resolved_base_url(), "https://openrouter.ai/api/v1");
}

#[test]
fn trailing_slash_is_dropped_once() {
    assert_eq!(normalize_base_url("http://h/v1/"), "http://h/v1");
    assert_eq!(normalize_base_url("http://h/"), "http://h/v1");
    assert_eq!(normalize_base_url(""), "/v1");
}

#[test]
fn refused_request_carries_status_and_body() {
    let r = response_from_http(429, "rate limited".to_string());
    assert!(matches!(
        r,
        Err(ClientError::ApiError { code, message }) if code == "429" && message == "rate limited"
    ));
    assert_eq!(
        raw_from_http(503, "down".to_string()),
        Err(ClientError::ApiError { code: "503".to_string(), message: "down".to_string() })
    );
    assert_eq!(raw_from_http(200, "{}".to_string()), Ok("{}".to_string()));
}

#[test]
fn successful_answer_is_read_as_a_response() {
    let body = r#"{"id":"r1","object":"response","created_at":5,"status":"completed","model":"m",
        "output":[{"type":"message","role":"assistant","content":[{"type":"output_text","text":"hi"}]}],
        "tools":[],"tool_choice":"auto","truncation":"auto","parallel_tool_calls":true,
        "text":{"format":{"type":"text"}},"top_p":1.0,"presence_penalty":0,"frequency_penalty":0,
        "top_logprobs":0,"temperature":1,"store":false,"background":false,"service_tier":"default",
        "metadata":{}}"#;
    let r = response_from_http(200, body.to_string()).unwrap();
    assert_eq!(r.id, "r1");
    assert_eq!(r.created_at, 5);
    assert_eq!(r.output.len(), 1);
    assert!(matches!(
        response_from_http(200, "nope".to_string()),
        Err(ClientError::JsonError(DecodeError::Syntax))
    ));
}

#[test]
fn status_codes_are_written_in_decimal() {
    assert_eq!(status_code_text(0), "0");
    assert_eq!(status_code_text(404), "404");
    assert_eq!(status_code_text(65535), "65535");
}

#[test]
fn request_pieces() {
    assert_eq!(responses_url("http://h/v1"), "http://h/v1/responses");
    assert_eq!(bearer("k"), "Bearer k");
    let r = streaming_request(CreateResponseBody { stream: Some(false), ..Default::default() });
    assert_eq!(r.stream, Some(true));
}
