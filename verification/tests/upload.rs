use gyazo::upload::with_token;
use gyazo::{ApiStatus, Client, ClientError, Config, Image, Method, Part, Response, Upload};

fn client(device: Option<&str>, key: Option<&str>) -> Client {
    Client::new(&Config {
        cookie: None,
        device: device.map(str::to_string),
        key: key.map(str::to_string),
        upload: Default::default(),
    })
}

fn upload(anonymous: bool) -> Upload {
    Upload { app: "Gyazo \"test\"".to_string(), public_metadata: true, anonymous }
}

fn upload_headers(list: Vec<(&'static str, Option<&'static str>)>) -> http::HeaderMap {
    let mut map = http::HeaderMap::new();
    for (name, value) in list {
        let value = match value {
            Some(text) => http::HeaderValue::from_static(text),
            None => http::HeaderValue::from_bytes(b"\xff").unwrap(),
        };
        map.append(http::header::HeaderName::from_static(name), value);
    }
    map
}

fn uploaded(body: &str, headers: Vec<(&'static str, Option<&'static str>)>) -> Response {
    Response { status: 200, headers: upload_headers(headers), text: Ok(body.to_string()) }
}

fn parts(form: &[Part]) -> Vec<(String, Option<String>)> {
    form.iter()
        .map(|part| match part {
            Part::Text { name, value } => (name.clone(), Some(value.clone())),
            Part::File { name } => (name.clone(), None),
        })
        .collect()
}

fn pairs(params: &[gyazo::Param]) -> Vec<(String, String)> {
    params.iter().map(|p| (p.name.clone(), p.value.clone())).collect()
}

fn pair(name: &str, value: &str) -> (String, String) {
    (name.to_string(), value.to_string())
}

fn decode_image(text: String) -> Result<Image, serde_json::Error> {
    serde_json::from_str::<serde_json::Value>(&text).map(|value| Image {
        image_id: value["image_id"].as_str().unwrap_or_default().to_string(),
        permalink_url: value["permalink_url"].as_str().unwrap_or_default().to_string(),
        thumb_url: None,
        file_type: value["type"].as_str().unwrap_or_default().to_string(),
        created_at: value["created_at"].as_str().unwrap_or_default().to_string(),
        metadata: None,
        ocr: None,
    })
}

#[test]
fn upload_defaults_come_from_the_configuration() {
    let mut config = Config::default();
    let upload = Upload::new(&config);
    assert_eq!(upload.app, "https://github.com/brooke-eva/gyazo");
    assert!(!upload.public_metadata);
    assert!(!upload.anonymous);
    config.upload.public_metadata = true;
    assert!(Upload::new(&config).public_metadata);
}

#[test]
fn cgi_request_sends_device_metadata_and_file() {
    let request = client(Some("device-1"), None).upload_image_cgi_request(&upload(false));
    assert_eq!(request.method, Method::Post);
    assert_eq!(request.url, "https://upload.gyazo.com/upload.cgi");
    assert!(request.query.is_empty());
    assert_eq!(pairs(&request.headers), vec![pair("x-gyazo-accept-token", "required")]);
    assert_eq!(
        parts(&request.form),
        vec![
            ("id".to_string(), Some("device-1".to_string())),
            ("metadata".to_string(), Some("{\"app\":\"Gyazo \\\"test\\\"\"}".to_string())),
            ("imagedata".to_string(), None),
        ]
    );
}

#[test]
fn cgi_request_sends_an_empty_id_when_anonymous() {
    let request = client(Some("device-1"), None).upload_image_cgi_request(&upload(true));
    assert_eq!(parts(&request.form)[0], ("id".to_string(), Some(String::new())));
    assert_eq!(client(Some("device-1"), None).device_to_send(&upload(true)), None);
}

#[test]
fn cgi_request_sends_an_empty_id_without_a_device() {
    let request = client(None, None).upload_image_cgi_request(&upload(false));
    assert_eq!(parts(&request.form)[0], ("id".to_string(), Some(String::new())));
}

#[test]
fn upload_image_request_is_the_cgi_request() {
    let request = client(Some("device-1"), None).upload_image_request(&upload(false));
    assert_eq!(request.url, "https://upload.gyazo.com/upload.cgi");
    assert_eq!(request.form.len(), 3);
}

#[test]
fn cgi_response_surfaces_the_assigned_device() {
    let response = uploaded("https://gyazo.com/abc", vec![("x-gyazo-id", Some("assigned-9"))]);
    let (url, device) =
        client(None, None).upload_image_cgi_response(&upload(false), response).unwrap();
    assert_eq!(url, "https://gyazo.com/abc");
    assert_eq!(device, "assigned-9");
}

#[test]
fn cgi_response_surfaces_the_assigned_device_when_anonymous() {
    let response = uploaded("https://gyazo.com/abc", vec![("x-gyazo-id", Some("assigned-9"))]);
    let (_, device) =
        client(Some("device-1"), None).upload_image_cgi_response(&upload(true), response).unwrap();
    assert_eq!(device, "assigned-9");
}

#[test]
fn cgi_response_echoes_the_device_that_was_sent() {
    let response = uploaded("https://gyazo.com/abc", vec![("x-gyazo-id", Some("assigned-9"))]);
    let (_, device) =
        client(Some("device-1"), None).upload_image_cgi_response(&upload(false), response).unwrap();
    assert_eq!(device, "device-1");
}

#[test]
fn cgi_response_puts_the_session_token_in_the_query() {
    let response = uploaded(
        "https://gyazo.com/abc",
        vec![("x-gyazo-session-token", Some("tok123")), ("x-gyazo-id", Some("assigned-9"))],
    );
    let (url, _) = client(None, None).upload_image_cgi_response(&upload(false), response).unwrap();
    assert_eq!(url, "https://gyazo.com/abc?token=tok123");
    assert_eq!(url::Url::parse(&url).unwrap().query(), Some("token=tok123"));
}

#[test]
fn cgi_response_replaces_a_query_by_the_token() {
    let response =
        uploaded("https://gyazo.com/abc?old=1#top", vec![("x-gyazo-session-token", Some("t"))]);
    let (url, _) =
        client(Some("device-1"), None).upload_image_cgi_response(&upload(false), response).unwrap();
    assert_eq!(url, "https://gyazo.com/abc?token=t#top");
}

#[test]
fn cgi_response_without_a_token_gives_the_url_in_normal_form() {
    let response = uploaded("HTTPS://Gyazo.com", vec![]);
    let (url, _) =
        client(Some("device-1"), None).upload_image_cgi_response(&upload(false), response).unwrap();
    assert_eq!(url, "https://gyazo.com/");
}

#[test]
fn cgi_response_without_any_device_is_an_error() {
    let response = uploaded("https://gyazo.com/abc", vec![]);
    match client(None, None).upload_image_cgi_response(&upload(false), response) {
        Err(ClientError::String(message)) => assert_eq!(
            message,
            "CGI image upload response did not contain a readable `x-gyazo-id` header"
        ),
        _ => panic!("expected a protocol error"),
    }
}

#[test]
fn cgi_response_with_an_unreadable_token_is_an_error() {
    let response = uploaded("https://gyazo.com/abc", vec![("x-gyazo-session-token", None)]);
    match client(Some("device-1"), None).upload_image_cgi_response(&upload(false), response) {
        Err(ClientError::String(message)) => assert_eq!(
            message,
            "CGI image upload response contained an unreadable `x-gyazo-session-token` header"
        ),
        _ => panic!("expected a protocol error"),
    }
}

#[test]
fn cgi_response_that_is_no_url_is_a_url_error() {
    let response = uploaded("not a url", vec![]);
    match client(Some("device-1"), None).upload_image_cgi_response(&upload(false), response) {
        Err(ClientError::Url { message, source }) => {
            assert_eq!(message, "CGI image upload response did not contain a URL");
            assert_eq!(source, url::ParseError::RelativeUrlWithoutBase);
        }
        _ => panic!("expected a URL error"),
    }
}

#[test]
fn cgi_response_is_checked_before_it_is_read() {
    let response = Response {
        status: 402,
        headers: http::HeaderMap::new(),
        text: Ok("https://gyazo.com/abc".to_string()),
    };
    match client(Some("device-1"), None).upload_image_cgi_response(&upload(false), response) {
        Err(ClientError::Api { message, status, .. }) => {
            assert_eq!(message, "CGI image upload request failed");
            assert_eq!(status, ApiStatus::ProRequired);
        }
        _ => panic!("expected an API error"),
    }
}

#[test]
fn cgi_response_without_text_is_a_failed_request() {
    let failure = reqwest::Client::new().get("not a url").build().unwrap_err();
    let response = Response { status: 200, headers: http::HeaderMap::new(), text: Err(failure) };
    match client(Some("device-1"), None).upload_image_cgi_response(&upload(false), response) {
        Err(ClientError::Request { message, .. }) => {
            assert_eq!(message, "CGI image upload response did not contain text")
        }
        _ => panic!("expected a request error"),
    }
}

#[test]
fn upload_image_response_gives_the_url_alone() {
    let response = uploaded("https://gyazo.com/abc", vec![("x-gyazo-session-token", Some("t"))]);
    let url = client(Some("device-1"), None).upload_image_response(&upload(false), response).unwrap();
    assert_eq!(url, "https://gyazo.com/abc?token=t");
}

#[test]
fn with_token_leaves_a_url_without_token() {
    assert_eq!(with_token("https://gyazo.com/abc".to_string(), None).unwrap(), "https://gyazo.com/abc");
}

#[test]
fn with_token_encodes_the_token() {
    let url = with_token("https://gyazo.com/abc".to_string(), Some("a b".to_string())).unwrap();
    assert_eq!(url, "https://gyazo.com/abc?token=a%20b");
}

#[test]
fn api_upload_request_carries_the_intent_in_the_query() {
    let request = client(None, Some("secret-key"))
        .upload_image_api_request(&upload(false), Some("1532417604.771".to_string()))
        .unwrap();
    assert_eq!(request.method, Method::Post);
    assert_eq!(request.url, "https://upload.gyazo.com/api/upload");
    assert_eq!(
        pairs(&request.query),
        vec![
            pair("access_token", "secret-key"),
            pair("app", "Gyazo \"test\""),
            pair("metadata_is_public", "true"),
            pair("created_at", "1532417604.771"),
        ]
    );
    assert!(request.headers.is_empty());
    assert_eq!(parts(&request.form), vec![("imagedata".to_string(), None)]);
}

#[test]
fn api_upload_request_leaves_an_unknown_creation_time_out() {
    let mut intent = upload(false);
    intent.public_metadata = false;
    let request = client(None, Some("secret-key")).upload_image_api_request(&intent, None).unwrap();
    assert_eq!(
        pairs(&request.query),
        vec![
            pair("access_token", "secret-key"),
            pair("app", "Gyazo \"test\""),
            pair("metadata_is_public", "false"),
        ]
    );
}

#[test]
fn api_upload_request_needs_the_key() {
    match client(Some("device-1"), None).upload_image_api_request(&upload(false), None) {
        Err(ClientError::Missing { message }) => assert_eq!(message, "No API key configured"),
        _ => panic!("expected a missing credential"),
    }
}

#[test]
fn api_upload_response_decodes_the_image() {
    let body = "{\"image_id\":\"abc\",\"permalink_url\":\"https://gyazo.com/abc\",\"type\":\"gif\",\"created_at\":\"now\"}";
    let image = Client::upload_image_api_response(uploaded(body, vec![]), decode_image).unwrap();
    assert_eq!(image.image_id, "abc");
    let file = image.into_file(Some(200));
    assert_eq!(file.download, "https://i.gyazo.com/download/abc.mp4");
}

#[test]
fn api_upload_response_reports_refusal_and_malformed_bodies() {
    let refused = Response { status: 422, headers: http::HeaderMap::new(), text: Ok("bad".to_string()) };
    match Client::upload_image_api_response(refused, decode_image) {
        Err(ClientError::Api { message, status, text }) => {
            assert_eq!(message, "API image upload failed");
            assert_eq!(status, ApiStatus::Unprocessable);
            assert_eq!(text, "bad");
        }
        _ => panic!("expected an API error"),
    }
    match Client::upload_image_api_response(uploaded("<html>", vec![]), decode_image) {
        Err(ClientError::Json { message, text, type_label, .. }) => {
            assert_eq!(message, "Could not decode image API upload response as JSON");
            assert_eq!(text, "<html>");
            assert_eq!(type_label, "Image");
        }
        _ => panic!("expected a decoding error"),
    }
}

#[test]
fn video_upload_without_a_device_fails_before_any_request() {
    match client(None, Some("secret-key")).upload_video_request() {
        Err(ClientError::Missing { message }) => assert_eq!(message, "No device ID configured"),
        _ => panic!("expected a missing credential"),
    }
}

#[test]
fn video_request_sends_device_and_file() {
    let request = client(Some("device-1"), None).upload_video_request().unwrap();
    assert_eq!(request.method, Method::Post);
    assert_eq!(request.url, "https://gif.gyazo.com/gif/upload");
    assert!(request.query.is_empty());
    assert!(request.headers.is_empty());
    assert_eq!(
        parts(&request.form),
        vec![("id".to_string(), Some("device-1".to_string())), ("data".to_string(), None)]
    );
}

#[test]
fn video_response_gives_the_url() {
    let url = Client::upload_video_response(uploaded("https://gyazo.com/abc", vec![])).unwrap();
    assert_eq!(url, "https://gyazo.com/abc");
    let url = Client::upload_video_response(uploaded("https://GYAZO.com/a b", vec![])).unwrap();
    assert_eq!(url, "https://gyazo.com/a%20b");
}

#[test]
fn video_response_that_is_no_url_is_a_url_error() {
    match Client::upload_video_response(uploaded("{\"url\": 1}", vec![])) {
        Err(ClientError::Url { message, .. }) => {
            assert_eq!(message, "Video API upload response did not contain a URL")
        }
        _ => panic!("expected a URL error"),
    }
}

#[test]
fn video_response_is_checked_before_it_is_read() {
    let response = Response { status: 500, headers: http::HeaderMap::new(), text: Ok("oops".to_string()) };
    match Client::upload_video_response(response) {
        Err(ClientError::Api { message, status, text }) => {
            assert_eq!(message, "Video upload failed");
            assert_eq!(status, ApiStatus::Unexpected);
            assert_eq!(text, "oops");
        }
        _ => panic!("expected an API error"),
    }
}

#[test]
fn video_response_without_text_is_a_failed_request() {
    let failure = reqwest::Client::new().get("not a url").build().unwrap_err();
    let response = Response { status: 200, headers: http::HeaderMap::new(), text: Err(failure) };
    match Client::upload_video_response(response) {
        Err(ClientError::Request { message, .. }) => {
            assert_eq!(message, "Video API upload response did not contain text")
        }
        _ => panic!("expected a request error"),
    }
}
