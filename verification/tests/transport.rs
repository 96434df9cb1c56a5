use gyazo::decimal::{decimal_text, parse_count};
use gyazo::transport::{decoded, extract_text};
use gyazo::{ApiStatus, ClientError, ExtractJson, Response, TypeName, Verify, WrapErr, WrapNone};

fn response(status: u16, body: &str) -> Response {
    Response { status, headers: http::HeaderMap::new(), text: Ok(body.to_string()) }
}

fn request_failure() -> reqwest::Error {
    reqwest::Client::new().get("not a url").build().unwrap_err()
}

fn status_of(code: u16) -> ApiStatus {
    match response(code, "").verify("context") {
        Err(ClientError::Api { status, .. }) => status,
        _ => panic!("status {code} was accepted"),
    }
}

#[test]
fn verify_accepts_the_success_range() {
    for status in [200u16, 201, 204, 299] {
        let accepted = response(status, "body").verify("context").unwrap();
        assert_eq!(accepted.status, status);
        assert_eq!(accepted.text.unwrap(), "body");
    }
}

#[test]
fn verify_refuses_what_lies_outside_the_success_range() {
    for status in [0u16, 100, 199, 300, 304, 999] {
        assert!(response(status, "body").verify("context").is_err());
    }
}

#[test]
fn status_429_is_rate_limited() {
    assert_eq!(status_of(429), ApiStatus::RateLimited);
}

#[test]
fn status_404_is_not_found() {
    assert_eq!(status_of(404), ApiStatus::NotFound);
}

#[test]
fn status_418_is_undocumented() {
    assert_eq!(status_of(418), ApiStatus::Undocumented(418));
}

#[test]
fn every_documented_status_has_its_class() {
    assert_eq!(status_of(400), ApiStatus::InvalidRequest);
    assert_eq!(status_of(401), ApiStatus::Unauthenticated);
    assert_eq!(status_of(402), ApiStatus::ProRequired);
    assert_eq!(status_of(403), ApiStatus::Unauthorized);
    assert_eq!(status_of(422), ApiStatus::Unprocessable);
    assert_eq!(status_of(500), ApiStatus::Unexpected);
    assert_eq!(status_of(503), ApiStatus::Undocumented(503));
    assert_eq!(ApiStatus::from_code(429), ApiStatus::RateLimited);
}

#[test]
fn verify_keeps_message_and_body() {
    match response(404, "{\"message\":\"gone\"}").verify("API get request failed") {
        Err(ClientError::Api { message, status, text }) => {
            assert_eq!(message, "API get request failed");
            assert_eq!(status, ApiStatus::NotFound);
            assert_eq!(text, "{\"message\":\"gone\"}");
        }
        _ => panic!("expected an API error"),
    }
}

#[test]
fn verify_substitutes_a_placeholder_for_an_unreadable_body() {
    let response = Response { status: 500, headers: http::HeaderMap::new(), text: Err(request_failure()) };
    match response.verify("context") {
        Err(ClientError::Api { text, status, .. }) => {
            assert_eq!(text, "TEXT MISSING");
            assert_eq!(status, ApiStatus::Unexpected);
        }
        _ => panic!("expected an API error"),
    }
}

#[test]
fn status_descriptions() {
    assert_eq!(ApiStatus::InvalidRequest.description(), "invalid request");
    assert_eq!(ApiStatus::Unauthenticated.description(), "unauthenticated");
    assert_eq!(ApiStatus::ProRequired.description(), "Pro required");
    assert_eq!(ApiStatus::Unauthorized.description(), "unauthorized");
    assert_eq!(ApiStatus::NotFound.description(), "not found");
    assert_eq!(ApiStatus::Unprocessable.description(), "unprocessable content");
    assert_eq!(ApiStatus::RateLimited.description(), "rate limited");
    assert_eq!(ApiStatus::Unexpected.description(), "unexpected");
    assert_eq!(ApiStatus::Undocumented(418).description(), "undocumented status code: 418");
}

#[test]
fn decimal_text_writes_numerals() {
    assert_eq!(decimal_text(0), "0");
    assert_eq!(decimal_text(7), "7");
    assert_eq!(decimal_text(10), "10");
    assert_eq!(decimal_text(100), "100");
    assert_eq!(decimal_text(1234567890), "1234567890");
    assert_eq!(decimal_text(u64::MAX), "18446744073709551615");
}

#[test]
fn extract_json_gives_the_decoded_value() {
    let value: serde_json::Value = response(200, "{\"a\": [1, 2]}")
        .extract_json(|text: String| serde_json::from_str(&text), "context")
        .unwrap();
    assert_eq!(value["a"][1], 2);
}

#[test]
fn extract_json_keeps_the_malformed_text() {
    let result: Result<serde_json::Value, ClientError> = response(200, "{\"image_id\": ")
        .extract_json(|text: String| serde_json::from_str(&text), "Could not decode");
    match result {
        Err(ClientError::Json { message, text, source, type_label }) => {
            assert_eq!(message, "Could not decode");
            assert_eq!(text, "{\"image_id\": ");
            assert!(source.is_eof());
            assert_eq!(type_label, "value");
        }
        _ => panic!("expected a decoding error"),
    }
}

#[test]
fn extract_json_reports_an_unreadable_body_as_a_failed_request() {
    let response = Response { status: 200, headers: http::HeaderMap::new(), text: Err(request_failure()) };
    let result: Result<serde_json::Value, ClientError> =
        response.extract_json(|text: String| serde_json::from_str(&text), "context");
    match result {
        Err(ClientError::Request { message, source }) => {
            assert_eq!(message, "response contained invalid text");
            assert!(source.is_builder());
        }
        _ => panic!("expected a request error"),
    }
}

#[test]
fn into_text_gives_the_body() {
    assert_eq!(response(200, "body").into_text("context").unwrap(), "body");
    let unreadable = Response { status: 200, headers: http::HeaderMap::new(), text: Err(request_failure()) };
    match unreadable.into_text("no text") {
        Err(ClientError::Request { message, .. }) => assert_eq!(message, "no text"),
        _ => panic!("expected a request error"),
    }
}

#[test]
fn type_labels() {
    assert_eq!(<serde_json::Value as TypeName>::type_label(), "value");
    assert_eq!(<Vec<serde_json::Value> as TypeName>::type_label(), "vector of values");
    assert_eq!(<gyazo::Image as TypeName>::type_label(), "Image");
    assert_eq!(<Vec<gyazo::Image> as TypeName>::type_label(), "vector of Image");
    assert_eq!(<gyazo::client::WrappedUser as TypeName>::type_label(), "user wrapped in object");
}

#[test]
fn decoded_keeps_the_value_or_the_body() {
    let parsed = serde_json::from_str::<serde_json::Value>("[1]");
    assert_eq!(decoded("[1]".to_string(), parsed, "context").unwrap()[0], 1);
    let parsed = serde_json::from_str::<serde_json::Value>("[1");
    match decoded("[1".to_string(), parsed, "context") {
        Err(ClientError::Json { message, text, type_label, .. }) => {
            assert_eq!(message, "context");
            assert_eq!(text, "[1");
            assert_eq!(type_label, "value");
        }
        _ => panic!("expected a decoding error"),
    }
}

#[test]
fn extract_text_hands_the_body_to_the_decoder() {
    let value: serde_json::Value = extract_text(
        Ok("body".to_string()),
        |text: String| Ok(serde_json::Value::String(text)),
        "context",
    )
    .unwrap();
    assert_eq!(value, "body");
}

#[test]
fn wrap_none_names_the_missing_value() {
    match None::<u8>.wrap_none("No cookie configured") {
        Err(ClientError::Missing { message }) => assert_eq!(message, "No cookie configured"),
        _ => panic!("expected a missing credential"),
    }
    assert_eq!(Some(3u8).wrap_none("unused").unwrap(), 3);
}

#[test]
fn wrap_err_keeps_the_cause() {
    let failure: Result<u8, std::io::Error> =
        Err(std::io::Error::new(std::io::ErrorKind::NotFound, "gone"));
    match failure.wrap_err("Could not prepare image upload form") {
        Err(ClientError::Io { message, source }) => {
            assert_eq!(message, "Could not prepare image upload form");
            assert_eq!(source.kind(), std::io::ErrorKind::NotFound);
        }
        _ => panic!("expected a file error"),
    }
    let failure: Result<u8, reqwest::Error> = Err(request_failure());
    match failure.wrap_err("Could not send") {
        Err(ClientError::Request { message, source }) => {
            assert_eq!(message, "Could not send");
            assert!(source.is_builder());
        }
        _ => panic!("expected a request error"),
    }
    let failure: Result<u8, url::ParseError> = Err(url::ParseError::EmptyHost);
    match failure.wrap_err("no URL") {
        Err(ClientError::Url { message, source }) => {
            assert_eq!(message, "no URL");
            assert_eq!(source, url::ParseError::EmptyHost);
        }
        _ => panic!("expected a URL error"),
    }
    let fine: Result<u8, std::io::Error> = Ok(5);
    assert_eq!(fine.wrap_err("unused").unwrap(), 5);
}

#[test]
fn error_texts() {
    assert_eq!(ClientError::String("broken".to_string()).to_text(), "broken");
    assert_eq!(ClientError::Missing { message: "No key".to_string() }.to_text(), "No key");
    let api = ClientError::Api {
        message: "failed".to_string(),
        status: ApiStatus::NotFound,
        text: "body".to_string(),
    };
    assert_eq!(api.to_text(), "failed (body)");
    let source = serde_json::from_str::<serde_json::Value>("{").unwrap_err();
    let json = ClientError::Json {
        message: "Could not decode".to_string(),
        text: "{".to_string(),
        source,
        type_label: "Image",
    };
    assert_eq!(json.to_text(), "Could not decode - type Image ({)");
    let url = ClientError::Url { message: "no URL".to_string(), source: url::ParseError::EmptyHost };
    assert_eq!(url.to_text(), "no URL");
}

#[test]
fn parse_count_reads_decimal_digits() {
    assert_eq!(parse_count("0"), Some(0));
    assert_eq!(parse_count("250"), Some(250));
    assert_eq!(parse_count("+250"), Some(250));
    assert_eq!(parse_count("000250"), Some(250));
    assert_eq!(parse_count(&usize::MAX.to_string()), Some(usize::MAX));
}

#[test]
fn parse_count_refuses_everything_else() {
    for text in ["", "+", "-1", "+-1", "++1", " 1", "1 ", "1_0", "0x10", "1.0", "١٢٣", "12a"] {
        assert_eq!(parse_count(text), None);
        assert!(text.parse::<usize>().is_err());
    }
    assert_eq!(parse_count("18446744073709551616"), None);
    assert_eq!(parse_count("99999999999999999999999999"), None);
}

#[test]
fn parse_count_reads_what_decimal_text_writes() {
    for n in [0u64, 1, 9, 10, 99, 100, 12345, u64::MAX] {
        assert_eq!(parse_count(&decimal_text(n)), Some(n as usize));
    }
}
