use awaur::errors::{classify_status, DeserializeError, ResponseError};
use awaur::json_string::JsonString;
use awaur::response::ApiResponse;
use awaur::statuscode::HttpStatus;

#[test]
fn api_response_accessors() {
    let response = ApiResponse::__new(b"{\"id\":7}".to_vec(), 7u64);
    assert_eq!(response.bytes(), b"{\"id\":7}");
    assert_eq!(*response.value(), 7);
    assert_eq!(response.clone().into_bytes(), b"{\"id\":7}".to_vec());
    assert_eq!(response.clone().into_value(), 7);
    let (bytes, value) = response.into_bytes_value();
    assert_eq!(bytes, b"{\"id\":7}".to_vec());
    assert_eq!(value, 7);
}

#[test]
fn json_string_wraps_value() {
    let wrapped = JsonString::new(vec![1u8, 2, 3]);
    assert_eq!(wrapped.value(), &vec![1u8, 2, 3]);
    assert_eq!(wrapped.into_inner(), vec![1u8, 2, 3]);
}

#[test]
fn classify_status_accepts_only_ok() {
    let uri = url::Url::parse("https://api.example.com/items").unwrap();
    let body = b"[1,2,3]".to_vec();
    let passed = classify_status(uri.clone(), HttpStatus::Okay, body.clone());
    assert_eq!(passed.as_deref().ok(), Some(b"[1,2,3]".as_slice()));

    let refused = classify_status(uri.clone(), HttpStatus::NotFound, body.clone());
    let error = match refused {
        Err(error) => error,
        Ok(_) => panic!("a 404 response must be classified as an error"),
    };
    assert_eq!(error.status_code(), HttpStatus::NotFound);
    assert_eq!(error.bytes(), b"[1,2,3]");

    let custom = classify_status(uri, HttpStatus::Custom(200), body);
    assert!(custom.is_ok());
}

#[test]
fn response_error_accessors() {
    let uri = url::Url::parse("https://api.example.com/items").unwrap();
    let error = ResponseError::__new(uri.clone(), b"oops".to_vec(), HttpStatus::BadGateway);
    assert_eq!(error.uri().as_str(), "https://api.example.com/items");
    assert_eq!(error.bytes(), b"oops");
    assert_eq!(error.status_code(), HttpStatus::BadGateway);
    let error = ResponseError::__new(uri.clone(), b"oops".to_vec(), HttpStatus::BadGateway);
    assert_eq!(error.into_bytes(), b"oops".to_vec());
    let error = ResponseError::__new(uri, b"oops".to_vec(), HttpStatus::BadGateway);
    let (taken_uri, taken_bytes) = error.into_uri_bytes();
    assert_eq!(taken_uri.as_str(), "https://api.example.com/items");
    assert_eq!(taken_bytes, b"oops".to_vec());
}

#[test]
fn deserialize_error_accessors() {
    let uri = url::Url::parse("https://api.example.com/items").unwrap();
    let bytes = b"{\"values\": [1, \"two\"]}".to_vec();
    let mut deserializer = serde_json::Deserializer::from_slice(&bytes);
    let failed: Result<std::collections::BTreeMap<String, Vec<u32>>, _> =
        serde_path_to_error::deserialize(&mut deserializer);
    let inner = match failed {
        Err(inner) => inner,
        Ok(_) => panic!("the bytes must fail to deserialize"),
    };
    let error = DeserializeError::__new(uri, bytes.clone(), inner);
    assert_eq!(error.uri().as_str(), "https://api.example.com/items");
    assert_eq!(error.bytes(), bytes.as_slice());
    assert_eq!(error.path().to_string(), "values[1]");
    let _json_error: &serde_json::Error = error.inner();
    let taken: serde_json::Error = error.into_inner();
    assert!(taken.is_data());
}
