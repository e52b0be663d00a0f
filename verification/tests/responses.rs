use picsum_rs::response::{
    details_from_outcome, details_list_from_outcome, image_from_outcome, HttpOutcome,
    ResponseParts,
};
use picsum_rs::{ImageDetails, RequestError};

fn response(status: u16, picsum_id: Option<&str>, body: Result<Vec<u8>, &str>) -> HttpOutcome {
    HttpOutcome::Response(ResponseParts {
        status,
        status_message: format!("status {}", status),
        picsum_id: picsum_id.map(|s| s.to_string()),
        body: body.map_err(|m| m.to_string()),
    })
}

const DETAILS_ONE: &str = r#"{
    "id": "1",
    "author": "Alejandro Escamilla",
    "width": 5000,
    "height": 3333,
    "url": "https://unsplash.com/photos/LNRyGwIJr5c",
    "download_url": "https://picsum.photos/id/1/5000/3333"
}"#;

#[test]
fn test_image_success() {
    let r = image_from_outcome(response(200, Some("1"), Ok(vec![1, 2, 3])));
    let image = r.expect("a successful response should decode");
    assert_eq!(image.id, "1");
    assert_eq!(image.data, vec![1, 2, 3]);
}

#[test]
fn test_image_missing_header_is_unexpected() {
    let r = image_from_outcome(response(200, None, Ok(vec![1, 2, 3])));
    let e = r.unwrap_err();
    assert!(!matches!(e, RequestError::InvalidResponse(_)));
    assert_eq!(
        e,
        RequestError::UnexpectedError("Couldn't retrieve `picsum-id` header.".to_string())
    );
}

#[test]
fn test_image_body_read_failure() {
    let r = image_from_outcome(response(200, Some("1"), Err("boom")));
    assert_eq!(
        r.unwrap_err(),
        RequestError::UnexpectedError("Couldn't read response body: boom".to_string())
    );
}

#[test]
fn test_status_classification() {
    let r = image_from_outcome(response(400, None, Ok(vec![])));
    assert!(matches!(r.unwrap_err(), RequestError::InvalidRequest(_)));
    let r = image_from_outcome(response(500, None, Ok(vec![])));
    assert!(matches!(r.unwrap_err(), RequestError::ServerError(_)));
    let r = image_from_outcome(response(404, None, Ok(vec![])));
    match r.unwrap_err() {
        RequestError::UnexpectedError(m) => assert_eq!(m, "404 status 404"),
        other => panic!("expected UnexpectedError, got {:?}", other),
    }
    let r = details_from_outcome(response(400, None, Ok(vec![])));
    assert!(matches!(r.unwrap_err(), RequestError::InvalidRequest(_)));
    let r = details_from_outcome(response(500, None, Ok(vec![])));
    assert!(matches!(r.unwrap_err(), RequestError::ServerError(_)));
    let r = details_from_outcome(response(503, None, Ok(vec![])));
    assert!(matches!(r.unwrap_err(), RequestError::UnexpectedError(_)));
}

#[test]
fn test_transport_failure() {
    let r = image_from_outcome(HttpOutcome::TransportFailure("timed out".to_string()));
    assert_eq!(r.unwrap_err(), RequestError::UnexpectedError("timed out".to_string()));
    let r = details_from_outcome(HttpOutcome::TransportFailure("refused".to_string()));
    assert_eq!(r.unwrap_err(), RequestError::UnexpectedError("refused".to_string()));
}

#[test]
fn test_details_literal() {
    let r = details_from_outcome(response(200, None, Ok(DETAILS_ONE.as_bytes().to_vec())));
    let details = r.expect("a well-formed details body should decode");
    let expected = ImageDetails {
        id: "1".to_string(),
        author: "Alejandro Escamilla".to_string(),
        width: 5000,
        height: 3333,
        url: "https://unsplash.com/photos/LNRyGwIJr5c".to_string(),
        download_url: "https://picsum.photos/id/1/5000/3333".to_string(),
    };
    assert_eq!(expected, details);
}

#[test]
fn test_details_missing_field() {
    let body = br#"{"id": "1", "author": "A"}"#.to_vec();
    let r = details_from_outcome(response(200, None, Ok(body)));
    assert!(matches!(r.unwrap_err(), RequestError::InvalidResponse(_)));
}

#[test]
fn test_details_malformed_json() {
    let r = details_from_outcome(response(200, None, Ok(b"not json".to_vec())));
    assert!(matches!(r.unwrap_err(), RequestError::InvalidResponse(_)));
}

#[test]
fn test_details_width_out_of_range() {
    let body = br#"{
        "id": "1", "author": "A", "width": 70000, "height": 10,
        "url": "u", "download_url": "d"
    }"#
    .to_vec();
    let r = details_from_outcome(response(200, None, Ok(body)));
    assert!(matches!(r.unwrap_err(), RequestError::InvalidResponse(_)));
}

#[test]
fn test_details_body_read_failure_is_invalid_response() {
    let r = details_from_outcome(response(200, None, Err("closed")));
    assert_eq!(r.unwrap_err(), RequestError::InvalidResponse("closed".to_string()));
}

#[test]
fn test_list_of_ten() {
    let mut items: Vec<String> = Vec::new();
    for i in 0..10 {
        items.push(format!(
            r#"{{"id": "{i}", "author": "a{i}", "width": 100, "height": 200,
                "url": "u{i}", "download_url": "d{i}"}}"#
        ));
    }
    let body = format!("[{}]", items.join(","));
    let r = details_list_from_outcome(response(200, None, Ok(body.into_bytes())));
    let list = r.expect("a well-formed list body should decode");
    assert_eq!(list.len(), 10);
    assert_eq!(list[3].id, "3");
    assert_eq!(list[3].author, "a3");
    assert_eq!(list[3].width, 100);
}

#[test]
fn test_list_not_an_array() {
    let r = details_list_from_outcome(response(200, None, Ok(b"{}".to_vec())));
    assert!(matches!(r.unwrap_err(), RequestError::InvalidResponse(_)));
}

#[test]
fn test_list_with_bad_element() {
    let body = br#"[{"id": "1", "author": "a", "width": 1, "height": 1,
        "url": "u", "download_url": "d"}, {"id": "2"}]"#
        .to_vec();
    let r = details_list_from_outcome(response(200, None, Ok(body)));
    assert!(matches!(r.unwrap_err(), RequestError::InvalidResponse(_)));
}
