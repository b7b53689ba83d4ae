use limiting_factor::api::guards::{extract, RequestBody, RequestBodyError, REQUEST_BODY_LIMIT};

#[test]
fn test_request_body_new() {
    let body = RequestBody::new();
    assert_eq!(0, body.content.len(), "Content should be empty");
}

#[test]
fn test_request_body_into_string() {
    let body = RequestBody { content: "quux".to_string() };
    assert_eq!(String::from("quux"), body.into_string());
}

#[test]
fn test_request_body_into_string_when_empty() {
    let body = RequestBody::new();
    assert_eq!(String::new(), body.into_string(), "Content should be empty");
}

#[test]
fn test_request_body_into_optional_string() {
    let body = RequestBody { content: "quux".to_string() };
    assert_eq!(Some(String::from("quux")), body.into_optional_string());
}

#[test]
fn test_request_body_into_optional_string_when_empty() {
    let body = RequestBody::new();
    assert_eq!(None, body.into_optional_string());
}

#[test]
fn test_body_extraction() {
    let body = extract(Ok(b"lorem ipsum dolor".to_vec())).unwrap();
    assert_eq!("lorem ipsum dolor", body.content);
    assert_eq!(
        Some("lorem ipsum dolor".to_string()),
        body.into_optional_string()
    );
}

#[test]
fn test_empty_body_extraction() {
    let body = extract(Ok(Vec::new())).unwrap();
    assert_eq!("", body.content);
    assert_eq!(None, body.into_optional_string());
}

#[test]
fn test_multibyte_body_extraction() {
    let body = extract(Ok("héllo wörld — ✓".as_bytes().to_vec())).unwrap();
    assert_eq!("héllo wörld — ✓", body.content);
}

#[test]
fn test_extraction_at_limit_boundary() {
    let bytes = vec![b'a'; REQUEST_BODY_LIMIT];
    let body = extract(Ok(bytes)).unwrap();
    assert_eq!(REQUEST_BODY_LIMIT, body.content.len());
}

#[test]
fn test_extraction_over_limit_is_too_large() {
    let bytes = vec![b'a'; REQUEST_BODY_LIMIT + 1];
    assert!(matches!(extract(Ok(bytes)), Err(RequestBodyError::TooLarge)));
}

#[test]
fn test_extraction_over_limit_invalid_utf8_is_too_large() {
    let bytes = vec![0xFFu8; REQUEST_BODY_LIMIT + 1];
    assert!(matches!(extract(Ok(bytes)), Err(RequestBodyError::TooLarge)));
}

#[test]
fn test_extraction_invalid_utf8_is_invalid_encoding() {
    let bytes = vec![0xC3, 0x28];
    assert!(matches!(
        extract(Ok(bytes)),
        Err(RequestBodyError::InvalidEncoding)
    ));
}

#[test]
fn test_extraction_read_error_is_passed_through() {
    let outcome = extract(Err("connection reset".to_string()));
    match outcome {
        Err(RequestBodyError::ReadError(detail)) => assert_eq!("connection reset", detail),
        _ => panic!("expected a read error"),
    }
}

#[test]
fn test_too_large_response() {
    let (status, message) = RequestBodyError::TooLarge.into_response();
    assert_eq!(413, status);
    assert_eq!("Request body too large", message);
}

#[test]
fn test_invalid_encoding_response() {
    let (status, message) = RequestBodyError::InvalidEncoding.into_response();
    assert_eq!(400, status);
    assert_eq!(
        "Request body contains invalid characters when trying to decode as UTF-8",
        message
    );
}

#[test]
fn test_read_error_response() {
    let (status, message) = RequestBodyError::ReadError("broken pipe".to_string()).into_response();
    assert_eq!(500, status);
    assert_eq!("Failed to read request body: broken pipe", message);
}
