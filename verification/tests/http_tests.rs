use gauge::http::{
    Error, HttpRequest, HttpRequestBuilder, HttpResponce, HttpResponceBuilder, Method, Status,
};
use gauge::text::u64_to_dec_string;

#[test]
fn responce_serialize() {
    let resp = HttpResponceBuilder::default().content("Boba boba aboba").build().serialize();

    let expected = "HTTP/1.1 200 OK\r\nContent-Length: 15\r\n\r\nBoba boba aboba".to_string();

    assert_eq!(resp, expected);
}

#[test]
fn responce_parse() {
    let resp = "HTTP/1.1 200 OK\r\nContent-Length: 15\r\n\r\nBoba boba aboba".to_string();

    let expected = HttpResponceBuilder::default().content("Boba boba aboba").build();

    let parsed = HttpResponce::parse(resp).unwrap();

    assert_eq!(expected, parsed);
}

#[test]
fn responce_must_be_invalid() {
    let resp = "HTTP 200 OK\r\nContent-Length: 15\r\n\r\nBoba boba aboba".to_string();
    assert!(HttpResponce::parse(resp).is_err());

    let resp = "200 OK\r\nContent-Length: 15\r\n\r\nBoba boba aboba".to_string();
    assert!(HttpResponce::parse(resp).is_err());

    let resp = "HTTP/1.1 200 OK\r\nContent-Length: 15\r\nBoba boba aboba".to_string();
    assert!(HttpResponce::parse(resp).is_err());

    let resp = "HTTP/1.1 200 OK\r\nContent-Length 15\r\n\r\nBoba boba aboba".to_string();
    assert!(HttpResponce::parse(resp).is_err());
}

#[test]
fn request_serialize() {
    let resp = HttpRequestBuilder::new().build().serialize();

    let expected = "GET / HTTP/1.1\r\n\r\n".to_string();

    assert_eq!(resp, expected);

    let resp = HttpRequestBuilder::new()
        .method(Method::POST)
        .content("Aboba")
        .path("/aboba")
        .build()
        .serialize();

    let expected = "POST /aboba HTTP/1.1\r\nContent-Length: 5\r\n\r\nAboba".to_string();

    assert_eq!(resp, expected);
}

#[test]
fn request_parse() {
    let resp = "GET / HTTP/1.1\r\n\r\n".to_string();
    let resp = HttpRequest::parse(resp.lines().map(|s| s.to_string()).collect()).unwrap();

    let expected = HttpRequestBuilder::new().build();

    assert_eq!(resp, expected);

    let resp = "POST /aboba HTTP/1.1\r\nContent-Length: 5\r\n\r\n".to_string();
    let resp = HttpRequest::parse(resp.lines().map(|s| s.to_string()).collect()).unwrap();

    let expected = HttpRequestBuilder::new()
        .method(Method::POST)
        .header("Content-Length".to_string(), "5".to_string())
        .path("/aboba")
        .build();

    assert_eq!(resp, expected);
}

#[test]
fn status_codes_parse_and_print() {
    assert!(matches!(Status::try_from("200"), Ok(Status::OK)));
    assert!(matches!(Status::try_from("201"), Ok(Status::Created)));
    assert!(matches!(Status::try_from("400"), Ok(Status::BadRequest)));
    assert!(matches!(Status::try_from("404"), Ok(Status::NotFound)));
    assert!(matches!(Status::try_from("405"), Ok(Status::MethodNotAllowed)));
    assert!(matches!(Status::try_from("500"), Ok(Status::InternalServerError)));
    assert!(Status::try_from("999").is_err());
    assert_eq!(Status::OK.code_text(), "200 OK");
    assert_eq!(Status::NotFound.code_text(), "404 Not Found");
}

#[test]
fn methods_parse_and_print() {
    assert!(matches!(Method::try_from("GET"), Ok(Method::GET)));
    assert!(matches!(Method::try_from("POST"), Ok(Method::POST)));
    assert!(matches!(Method::try_from("PATCH"), Ok(Method::PATCH)));
    assert!(Method::try_from("FETCH").is_err());
    assert_eq!(Method::DELETE.as_text(), "DELETE");
}

#[test]
fn request_line_errors_are_telling() {
    let short = HttpRequest::parse(vec!["GET /".to_string()]);
    assert!(short.is_err());

    let old_protocol = HttpRequest::parse(vec!["GET / HTTP/1.0".to_string()]);
    assert!(old_protocol.is_err());

    let unknown = HttpRequest::parse(vec!["FETCH / HTTP/1.1".to_string()]);
    assert!(unknown.is_err());

    let empty: Vec<String> = Vec::new();
    assert!(HttpRequest::parse(empty).is_err());
}

#[test]
fn inserting_a_header_twice_replaces_its_value() {
    let resp = HttpResponceBuilder::default()
        .header("Connection".to_string(), "open".to_string())
        .header("Connection".to_string(), "close".to_string())
        .build();
    assert_eq!(resp.headers().len(), 1);
    assert_eq!(resp.headers()[0].0, "Connection".to_string());
    assert_eq!(resp.headers()[0].1, "close".to_string());
}

#[test]
fn content_length_counts_bytes_not_characters() {
    let resp = HttpResponceBuilder::default().content("h\u{e9}").build();
    assert_eq!(resp.headers()[0].0, "Content-Length".to_string());
    assert_eq!(resp.headers()[0].1, "3".to_string());
    assert_eq!(resp.content().clone(), Some("h\u{e9}".to_string()));
}

#[test]
fn decimal_rendering_is_exact() {
    assert_eq!(u64_to_dec_string(0), "0".to_string());
    assert_eq!(u64_to_dec_string(7), "7".to_string());
    assert_eq!(u64_to_dec_string(10), "10".to_string());
    assert_eq!(u64_to_dec_string(255), "255".to_string());
    assert_eq!(u64_to_dec_string(12045), "12045".to_string());
}

#[test]
fn response_with_status_and_getters() {
    let resp = HttpResponceBuilder::default()
        .status(Status::NotFound)
        .content("gone")
        .build();
    let text = resp.serialize();
    assert_eq!(text, "HTTP/1.1 404 Not Found\r\nContent-Length: 4\r\n\r\ngone".to_string());

    let req = HttpRequestBuilder::new().method(Method::PUT).path("/x").build();
    assert!(matches!(req.method(), Method::PUT));
    assert_eq!(req.path().as_str(), "/x");
    assert!(req.headers().is_empty());
    assert!(req.content().is_none());
}

#[test]
fn multi_line_body_lines_are_joined() {
    let resp = "HTTP/1.1 200 OK\r\n\r\nfirst\r\nsecond".to_string();
    let parsed = HttpResponce::parse(resp).unwrap();
    assert_eq!(parsed.content().clone(), Some("firstsecond".to_string()));
}

#[test]
fn error_messages_name_their_cause() {
    assert_eq!(Error::UnknownStatus.message(), "Unknown status".to_string());
    assert_eq!(
        Error::InternalServerError("lock poisoned".to_string()).message(),
        "Internal server error: lock poisoned".to_string()
    );
}
