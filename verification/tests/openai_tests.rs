use aisdk::errors::generate_text_error::GenerateTextError;
use aisdk::json_value::JSONValue;
use aisdk::openai::{parse_generate_text_response, OpenAiRequest};

fn object(entries: Vec<(&str, JSONValue)>) -> JSONValue {
    JSONValue::JSONObject(
        entries
            .into_iter()
            .map(|(k, v)| (k.to_string(), v))
            .collect(),
    )
}

fn text(s: &str) -> JSONValue {
    JSONValue::String(s.to_string())
}

#[test]
fn test_openai_request_to_json() {
    let request = OpenAiRequest {
        model: "gpt-test".to_string(),
        input: "Hello".to_string(),
    };
    assert_eq!(
        request.to_json(),
        object(vec![("model", text("gpt-test")), ("input", text("Hello"))])
    );
}

#[test]
fn test_parse_success_response_concatenates_text() {
    let body = object(vec![(
        "output",
        object(vec![(
            "output",
            JSONValue::JSONArray(vec![
                object(vec![(
                    "content",
                    JSONValue::JSONArray(vec![
                        object(vec![("text", text("Hello"))]),
                        object(vec![("text", text(", world"))]),
                    ]),
                )]),
                object(vec![(
                    "content",
                    JSONValue::JSONArray(vec![object(vec![("text", text("!"))])]),
                )]),
            ]),
        )]),
    )]);
    let response = parse_generate_text_response(200, &body).unwrap();
    assert_eq!(response.text, "Hello, world!");
}

#[test]
fn test_parse_success_response_without_output_is_empty() {
    let body = object(vec![("unrelated", JSONValue::Null)]);
    let response = parse_generate_text_response(204, &body).unwrap();
    assert_eq!(response.text, "");
}

#[test]
fn test_parse_error_response_reads_error_message() {
    let body = object(vec![(
        "error",
        object(vec![("message", text("quota exceeded"))]),
    )]);
    match parse_generate_text_response(429, &body) {
        Err(GenerateTextError::Api {
            status_code,
            message,
        }) => {
            assert_eq!(status_code, 429);
            assert_eq!(message, "quota exceeded");
        }
        _ => panic!("expected an API error"),
    }
}

#[test]
fn test_parse_error_response_without_message() {
    let body = object(vec![]);
    match parse_generate_text_response(500, &body) {
        Err(GenerateTextError::Api {
            status_code,
            message,
        }) => {
            assert_eq!(status_code, 500);
            assert_eq!(message, "unknown error");
        }
        _ => panic!("expected an API error"),
    }
}

#[test]
fn test_generate_text_error_display() {
    let transport = GenerateTextError::Transport("connection reset".to_string());
    assert_eq!(transport.display_string(), "network error: connection reset");
    let api = GenerateTextError::Api {
        status_code: 404,
        message: "not found".to_string(),
    };
    assert_eq!(api.display_string(), "API error [404]: not found");
}

struct CannedProvider {
    answer: Result<String, u16>,
}

impl aisdk::generate_text::GenerateText for CannedProvider {
    fn generate_text(
        &self,
        _req: aisdk::generate_text::GenerateTextRequest,
    ) -> Result<aisdk::generate_text::GenerateTextResponse, GenerateTextError> {
        match &self.answer {
            Ok(text) => Ok(aisdk::generate_text::GenerateTextResponse { text: text.clone() }),
            Err(code) => Err(GenerateTextError::Api {
                status_code: *code,
                message: "failed".to_string(),
            }),
        }
    }
}

#[test]
fn test_generate_text_returns_provider_answer() {
    let provider = CannedProvider {
        answer: Ok("Hi there".to_string()),
    };
    let answer =
        aisdk::generate_text::generate_text(&provider, "gpt-test".to_string(), "Hey");
    assert_eq!(answer.unwrap(), "Hi there");
}

#[test]
fn test_generate_text_passes_provider_error_through() {
    let provider = CannedProvider { answer: Err(401) };
    let answer =
        aisdk::generate_text::generate_text(&provider, "gpt-test".to_string(), "Hey");
    match answer {
        Err(GenerateTextError::Api { status_code, .. }) => assert_eq!(status_code, 401),
        _ => panic!("expected the provider's API error"),
    }
}
