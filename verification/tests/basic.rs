use awaur::statuscode::HttpStatus;

#[test]
fn it_works() {
    let result = 2 + 2;
    assert_eq!(result, 4);
}

#[test]
fn status_code_values() {
    assert_eq!(HttpStatus::Okay.code(), 200);
    assert_eq!(HttpStatus::Continue.code(), 100);
    assert_eq!(HttpStatus::NotFound.code(), 404);
    assert_eq!(HttpStatus::NetworkAuthenticationRequired.code(), 511);
    assert_eq!(HttpStatus::Custom(999).code(), 999);
}

#[test]
fn status_from_code_round_trip() {
    for code in 0u16..=1000 {
        let status = HttpStatus::from_code(code);
        assert_eq!(status.code(), code);
    }
}

#[test]
fn status_from_known_codes() {
    assert_eq!(HttpStatus::from_code(200), HttpStatus::Okay);
    assert_eq!(HttpStatus::from_code(304), HttpStatus::NotModified);
    assert_eq!(HttpStatus::from_code(429), HttpStatus::TooManyRequests);
    assert_eq!(HttpStatus::from_code(600), HttpStatus::Custom(600));
}

#[test]
fn status_conversion_impls() {
    assert_eq!(HttpStatus::from(503u16), HttpStatus::ServiceUnavailable);
    assert_eq!(u16::from(HttpStatus::ServiceUnavailable), 503);
    assert_eq!(u16::from(HttpStatus::Custom(42)), 42);
}

#[test]
fn status_messages() {
    assert_eq!(HttpStatus::Okay.message(), "200: OK");
    assert_eq!(HttpStatus::NotFound.message(), "404: Not Found");
    assert_eq!(
        HttpStatus::NetworkAuthenticationRequired.message(),
        "511: Network Authentication Required"
    );
    assert_eq!(HttpStatus::Custom(999).message(), "999: Custom Response");
    assert_eq!(HttpStatus::Custom(0).message(), "0: Custom Response");
    assert_eq!(HttpStatus::Custom(65535).message(), "65535: Custom Response");
}
