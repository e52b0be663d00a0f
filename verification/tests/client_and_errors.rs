use picsum_rs::error::{is_failing_status, status_error};
use picsum_rs::{PicsumClient, PicsumClientBuilder, RequestError};

#[test]
fn test_default_client() {
    let client = PicsumClient::default();
    assert_eq!(client.base_url, "https://picsum.photos");
    let copy = client.clone();
    assert_eq!(copy.base_url, "https://picsum.photos");
}

#[test]
fn test_builder_defaults() {
    let builder = PicsumClient::builder();
    assert!(builder.client.is_none());
    assert_eq!(builder.base_url, "https://picsum.photos");
    let client = builder.build();
    assert_eq!(client.base_url, "https://picsum.photos");
}

#[test]
fn test_builder_overrides() {
    let client = PicsumClientBuilder::new()
        .client(reqwest::Client::new())
        .base_url("http://localhost:8080".to_string())
        .build();
    assert_eq!(client.base_url, "http://localhost:8080");
    let defaulted = PicsumClientBuilder::default();
    assert!(defaulted.client.is_some());
}

#[test]
fn test_status_error_mapping() {
    assert_eq!(
        status_error(400, "bad".to_string()),
        RequestError::InvalidRequest("bad".to_string())
    );
    assert_eq!(
        status_error(500, "broken".to_string()),
        RequestError::ServerError("broken".to_string())
    );
    assert_eq!(
        status_error(404, "missing".to_string()),
        RequestError::UnexpectedError("404 missing".to_string())
    );
    assert_eq!(
        status_error(418, "teapot".to_string()),
        RequestError::UnexpectedError("418 teapot".to_string())
    );
}

#[test]
fn test_is_failing_status_bounds() {
    assert!(!is_failing_status(200));
    assert!(!is_failing_status(399));
    assert!(is_failing_status(400));
    assert!(is_failing_status(500));
    assert!(is_failing_status(599));
    assert!(!is_failing_status(600));
}

#[test]
fn test_describe() {
    assert_eq!(
        RequestError::InvalidRequest("a".to_string()).describe(),
        "Request error: a"
    );
    assert_eq!(
        RequestError::InvalidResponse("b".to_string()).describe(),
        "Invalid response: b"
    );
    assert_eq!(
        RequestError::ServerError("c".to_string()).describe(),
        "Server error: c"
    );
    assert_eq!(
        RequestError::UnexpectedError("d".to_string()).describe(),
        "Unexpected error: d"
    );
}
