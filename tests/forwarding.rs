use github_browser::forwarder::is_success;
use github_browser::{after_decode, after_send, ForwardError, Forwarder, OpenRequest, OpenResponse};

fn response(status: &str, message: &str, path: Option<&str>) -> OpenResponse {
    OpenResponse {
        status: status.to_string(),
        message: message.to_string(),
        path: path.map(|p| p.to_string()),
    }
}

#[test]
fn ok_reply_succeeds_for_any_link() {
    for url in ["https://github.com/foo/bar", "https://example.com/a?b=c#d", "x"] {
        let request = OpenRequest::new(url);
        assert_eq!(request.url, url);
        assert_eq!(after_send(Ok(200)), Ok(()));
        assert_eq!(after_decode(Ok(response("ok", "opened", None))), Ok(()));
    }
}

#[test]
fn ok_reply_with_path_succeeds() {
    assert_eq!(after_send(Ok(201)), Ok(()));
    assert_eq!(after_decode(Ok(response("ok", "cloned", Some("/home/u/src/bar")))), Ok(()));
}

#[test]
fn status_500_is_service_error() {
    assert_eq!(after_send(Ok(500)), Err(ForwardError::ServiceError(500)));
}

#[test]
fn other_failure_statuses_are_service_errors() {
    assert_eq!(after_send(Ok(404)), Err(ForwardError::ServiceError(404)));
    assert_eq!(after_send(Ok(301)), Err(ForwardError::ServiceError(301)));
    assert_eq!(after_send(Ok(199)), Err(ForwardError::ServiceError(199)));
}

#[test]
fn success_class_bounds() {
    assert!(!is_success(199));
    assert!(is_success(200));
    assert!(is_success(299));
    assert!(!is_success(300));
    assert!(!is_success(0));
    assert!(!is_success(u16::MAX));
}

#[test]
fn unreachable_service_is_transport_error() {
    let cause = "error sending request for url (http://localhost:9527/open)".to_string();
    assert_eq!(after_send(Err(cause.clone())), Err(ForwardError::TransportError(cause)));
}

#[test]
fn undecodable_body_is_decode_error() {
    let reason = "expected value at line 1 column 1".to_string();
    assert_eq!(after_decode(Err(reason.clone())), Err(ForwardError::DecodeError(reason)));
}

#[test]
fn error_status_is_application_error_with_message() {
    assert_eq!(
        after_decode(Ok(response("error", "unsupported url", None))),
        Err(ForwardError::ApplicationError("unsupported url".to_string()))
    );
}

#[test]
fn any_status_but_ok_is_refusal() {
    assert_eq!(
        after_decode(Ok(response("OK", "", None))),
        Err(ForwardError::ApplicationError(String::new()))
    );
    assert_eq!(
        after_decode(Ok(response("", "no status", None))),
        Err(ForwardError::ApplicationError("no status".to_string()))
    );
}

#[test]
fn request_body_holds_exactly_url_and_ide() {
    let body = OpenRequest::new("https://github.com/foo/bar").body();
    let value: serde_json::Value = serde_json::from_str(&body).unwrap();
    let mut expected = serde_json::Map::new();
    expected.insert("url".to_string(), serde_json::Value::String("https://github.com/foo/bar".to_string()));
    expected.insert("ide".to_string(), serde_json::Value::String("zed".to_string()));
    assert_eq!(value, serde_json::Value::Object(expected));
    assert_eq!(body, "{\"url\":\"https://github.com/foo/bar\",\"ide\":\"zed\"}");
}

#[test]
fn request_body_escapes_the_link() {
    let url = "https://x.test/\"q\"\\p\n";
    let body = OpenRequest::new(url).body();
    assert_eq!(body, "{\"url\":\"https://x.test/\\\"q\\\"\\\\p\\n\",\"ide\":\"zed\"}");
    let value: serde_json::Value = serde_json::from_str(&body).unwrap();
    assert_eq!(value["url"], serde_json::Value::String(url.to_string()));
}

#[test]
fn request_names_the_editor() {
    let request = OpenRequest::new("https://github.com/foo/bar");
    assert_eq!(request.url, "https://github.com/foo/bar");
    assert_eq!(request.ide, "zed");
}

#[test]
fn default_endpoint() {
    let f = Forwarder::new();
    assert_eq!(f.service_url(), "http://localhost:9527");
    assert_eq!(f.endpoint(), "http://localhost:9527/open");
}

#[test]
fn configured_endpoint() {
    let f = Forwarder::with_service_url("http://127.0.0.1:40123".to_string());
    assert_eq!(f.service_url(), "http://127.0.0.1:40123");
    assert_eq!(f.endpoint(), "http://127.0.0.1:40123/open");
}
