use awaur::client::{Client, Config, ConfigError, RequestMethod};
use awaur::request::{BuildError, Method, RequestBuilder};

#[test]
fn build_full_request() {
    let request = RequestBuilder::new(Method::Get)
        .uri("https://api.example.com/v1/")
        .uri("items")
        .query("page=2&limit=10")
        .body("{}")
        .headers(vec![("accept".to_string(), "application/json".to_string())])
        .done()
        .expect("the request is complete");
    assert_eq!(request.method(), Method::Get);
    assert_eq!(request.uri(), "https://api.example.com/v1/items?page=2&limit=10");
    assert_eq!(request.body(), "{}");
    assert_eq!(
        request.headers(),
        &vec![("accept".to_string(), "application/json".to_string())]
    );
}

#[test]
fn build_without_query_or_body() {
    let request = RequestBuilder::new(Method::Delete)
        .uri("https://api.example.com/items/3")
        .done()
        .expect("the request is complete");
    assert_eq!(request.method(), Method::Delete);
    assert_eq!(request.uri(), "https://api.example.com/items/3");
    assert_eq!(request.body(), "");
    assert!(request.headers().is_empty());
}

#[test]
fn build_replaces_method() {
    let request = RequestBuilder::new(Method::Get)
        .method(Method::Patch)
        .uri("https://api.example.com/")
        .done()
        .expect("the request is complete");
    assert_eq!(request.method(), Method::Patch);
}

#[test]
fn build_headers_accumulate() {
    let request = RequestBuilder::new(Method::Post)
        .uri("https://api.example.com/")
        .headers(vec![("a".to_string(), "1".to_string())])
        .headers(vec![("b".to_string(), "2".to_string())])
        .done()
        .expect("the request is complete");
    assert_eq!(
        request.headers(),
        &vec![
            ("a".to_string(), "1".to_string()),
            ("b".to_string(), "2".to_string()),
        ]
    );
}

#[test]
fn build_rejects_unparsable_url() {
    let result = RequestBuilder::new(Method::Get).uri("not a url at all").done();
    assert_eq!(result.map(|_| ()), Err(BuildError::InvalidUrl));
}

#[test]
fn build_rejects_base_that_cannot_be_one() {
    let result = RequestBuilder::new(Method::Get).uri("data:text/plain,hello").done();
    assert_eq!(result.map(|_| ()), Err(BuildError::UrlCannotBeABase));
}

#[test]
fn build_keeps_first_error() {
    let result = RequestBuilder::new(Method::Get)
        .uri("not a url at all")
        .uri("https://api.example.com/")
        .done();
    assert_eq!(result.map(|_| ()), Err(BuildError::InvalidUrl));
}

#[test]
fn build_requires_method() {
    let result = RequestBuilder::default().uri("https://api.example.com/").done();
    assert_eq!(result.map(|_| ()), Err(BuildError::MissingMethod));
}

#[test]
fn build_requires_url() {
    let result = RequestBuilder::new(Method::Get).done();
    assert_eq!(result.map(|_| ()), Err(BuildError::MissingUrl));
}

#[test]
fn client_accepts_valid_config() {
    let config = Config {
        base_url: Some(url::Url::parse("https://api.example.com/v1/").unwrap()),
        headers: vec![("user-agent".to_string(), "awaur-tests".to_string())],
    };
    let client = Client::new(config).expect("the config is valid");
    let builder = RequestBuilder::from_client(&client, Method::Get);
    let request = builder.uri("items").done().expect("the request is complete");
    assert_eq!(request.uri(), "https://api.example.com/v1/items");
    assert_eq!(
        request.headers(),
        &vec![("user-agent".to_string(), "awaur-tests".to_string())]
    );
}

#[test]
fn client_accepts_config_without_base() {
    let config = Config { base_url: None, headers: Vec::new() };
    assert!(Client::new(config).is_ok());
}

#[test]
fn client_rejects_opaque_base_url() {
    let config = Config {
        base_url: Some(url::Url::parse("mailto:someone@example.com").unwrap()),
        headers: Vec::new(),
    };
    match Client::new(config) {
        Err(ConfigError::UrlCannotBeABase) => {}
        Ok(_) => panic!("an opaque base URL must be rejected"),
    }
}

#[test]
fn client_request_starters() {
    let config = Config { base_url: None, headers: Vec::new() };
    let client = Client::new(config).expect("the config is valid");
    let head = client.head("/ping");
    assert_eq!(head.method, RequestMethod::Head);
    assert!(head.body.is_none());
    let get = client.get("/items");
    assert_eq!(get.method, RequestMethod::Get);
    assert!(get.headers.is_empty());
    let put = client.put("/items/1", b"one".to_vec());
    assert_eq!(put.method, RequestMethod::Put);
    assert_eq!(put.body.as_deref(), Some(b"one".as_slice()));
    let post = client.post("/items", b"two".to_vec());
    assert_eq!(post.method, RequestMethod::Post);
    assert_eq!(post.body.as_deref(), Some(b"two".as_slice()));
    let delete = client.delete("/items/1");
    assert_eq!(delete.method, RequestMethod::Delete);
    assert!(delete.body.is_none());
}
