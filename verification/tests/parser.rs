use bytes::BytesMut;
use request_rs::body::{Body, BodyKind};
use request_rs::error::{Failure, HttpError};
use request_rs::header::{HeaderMap, HeaderName, HeaderValue};
use request_rs::method::Method;
use request_rs::proto::http1::parse::{RequestParser, ResponseParser};
use request_rs::proto::ParserResult;
use request_rs::request::Request;
use request_rs::response::Response;
use request_rs::status::StatusCode;
use request_rs::tokenizer::TokenizerFailure;
use request_rs::uri::Uri;
use request_rs::version::Version;

fn header_text<'a>(headers: &'a HeaderMap, name: &str) -> &'a str {
    std::str::from_utf8(headers.get(name).unwrap().as_bytes()).unwrap()
}

fn decode(input: &[u8]) -> (Result<ParserResult<Response>, HttpError>, BytesMut, bool) {
    let mut buf = BytesMut::from(input);
    let mut parser = ResponseParser::new();
    let r = parser.parse(&mut buf);
    (r, buf, parser.keep_alive())
}

fn complete(input: &[u8]) -> (Response, BytesMut, bool) {
    match decode(input) {
        (Ok(ParserResult::Complete(resp)), buf, keep) => (resp, buf, keep),
        (Ok(ParserResult::Partial), _, _) => panic!("partial"),
        (Err(e), _, _) => panic!("error: {:?}", e),
    }
}

#[test]
fn test_request() {
    // with username
    let body = Body::from_str("username=123");
    let req = Request::builder()
        .uri(Uri::parse("http://www.baidu.com").unwrap())
        .method(Method::GET)
        .header("Host", "www.baidu.com")
        .header("User-Agent", "request-rs")
        .body(body)
        .unwrap();
    let resp = RequestParser::encode(req).unwrap();
    let result = String::from_utf8_lossy(resp.as_ref());
    assert_eq!(
        "GET / HTTP/1.1\r\nhost: www.baidu.com\r\nuser-agent: request-rs\r\n\r\nusername=123",
        result
    );

    let req = Request::builder()
        .uri(Uri::parse("http://www.baidu.com/ath/aa?query=image&pass=yes").unwrap())
        .header("Host", "www.baidu.com")
        .header("User-Agent", "request-rs")
        .body(Body::empty())
        .unwrap();
    let resp = RequestParser::encode(req).unwrap();
    let result = String::from_utf8_lossy(resp.as_ref());
    assert_eq!(
        "GET /ath/aa?query=image&pass=yes HTTP/1.1\r\nhost: www.baidu.com\r\nuser-agent: request-rs\r\n\r\n",
        result
    );
}

const PAGE: &str = r#"<html>
<head><title>404 Not Found</title></head>
<body>
<center><h1>404 Not Found</h1></center>
<hr><center>openresty</center>
</body>
</html>"#;

#[test]
fn test_response() {
    let resp = r#"HTTP/1.1 404 Not Found
Date: Fri, 29 May 2020 05:42:19 GMT
Content-Type: text/html
Content-Length: 150
Connection: keep-alive
Server: Tengine/2.1.1
Age: 1
Ws-S2h-Acc-Level: 1
X-Via: 1.1 PSfjfzsx3av123:4 (Cdn Cache Server V2.0), 1.1 PS-CKG-01rzq56:7 (Cdn Cache Server V2.0), 1.1 PS-000-01bMW67:2 (Cdn Cache Server V2.0)
X-Ws-Request-Id: 5ed0a0bb_PS-000-01bMW67_10521-64568
X-Cache-Webcdn: WS
Access-Control-Allow-Origin: *

<html>
<head><title>404 Not Found</title></head>
<body>
<center><h1>404 Not Found</h1></center>
<hr><center>openresty</center>
</body>
</html>"#;
    let mut buf = BytesMut::from(resp);
    let mut parser = ResponseParser::new();
    let response = parser.parse(&mut buf).unwrap();
    if let ParserResult::Complete(data) = response {
        assert_eq!(StatusCode::from_u16(404).unwrap(), data.status());
        let headers = data.headers();
        assert_eq!("Fri, 29 May 2020 05:42:19 GMT", header_text(headers, "date"));
        assert_eq!("text/html", header_text(headers, "content-type"));
        assert_eq!("150", header_text(headers, "content-length"));
        assert_eq!("keep-alive", header_text(headers, "connection"));
        assert_eq!("Tengine/2.1.1", header_text(headers, "server"));
        assert_eq!("1", header_text(headers, "age"));
        assert_eq!("1", header_text(headers, "Ws-S2h-Acc-Level"));
        assert_eq!("1.1 PSfjfzsx3av123:4 (Cdn Cache Server V2.0), 1.1 PS-CKG-01rzq56:7 (Cdn Cache Server V2.0), 1.1 PS-000-01bMW67:2 (Cdn Cache Server V2.0)", header_text(headers, "X-Via"));
        assert_eq!("5ed0a0bb_PS-000-01bMW67_10521-64568", header_text(headers, "X-Ws-Request-Id"));
        assert_eq!("WS", header_text(headers, "X-Cache-Webcdn"));
        assert_eq!("*", header_text(headers, "Access-Control-Allow-Origin"));
        let body = data.body();
        if let BodyKind::Text(text) = body.kind() {
            assert_eq!(PAGE, text);
        }
        match body.kind() {
            BodyKind::Binary(bytes) => assert_eq!(PAGE.as_bytes(), bytes.as_ref()),
            _ => panic!("the body of a response is binary"),
        }
        assert_eq!(11, headers.len());
        assert_eq!(Version::HTTP_11, data.version());
        assert!(parser.keep_alive());
        assert_eq!(PAGE.as_bytes(), buf.as_ref());
    } else {
        panic!("parse error")
    }
}

#[test]
fn header_macros() {
    let mut header = HeaderMap::with_capacity(2);
    header.append(
        HeaderName::from_str("Content-Type").unwrap(),
        HeaderValue::from_str("text/html").unwrap(),
    );
    header.append(
        HeaderName::from_str("Host").unwrap(),
        HeaderValue::from_str("cn.bing.com").unwrap(),
    );
    assert_eq!("text/html", header_text(&header, "Content-Type"));
    assert_eq!("cn.bing.com", header_text(&header, "Host"));
}

#[test]
fn inner_error_is_invalid_status_code() {
    if let Err(e) = StatusCode::from_u16(6666) {
        let err = HttpError::new(request_rs::error::ErrorKind::StatusCode(e));
        assert_ne!(Failure::HeaderValue, err.get_failure());
        assert_eq!(Failure::StatusCode, err.get_failure());
        assert!(matches!(err.get_ref(), request_rs::error::ErrorKind::StatusCode(_)));
    } else {
        panic!("Bad status allowed!");
    }
}

#[test]
fn request_line_with_and_without_query() {
    let with_query = Request::builder()
        .uri(Uri::parse("http://example.com/a/b?q=1").unwrap())
        .body(Body::empty())
        .unwrap();
    let bytes = RequestParser::encode(with_query).unwrap();
    assert_eq!(b"GET /a/b?q=1 HTTP/1.1\r\n\r\n".as_ref(), bytes.as_ref());

    let without = Request::builder()
        .uri(Uri::parse("http://example.com/a/b").unwrap())
        .body(Body::empty())
        .unwrap();
    let bytes = RequestParser::encode(without).unwrap();
    assert_eq!(b"GET /a/b HTTP/1.1\r\n\r\n".as_ref(), bytes.as_ref());
}

#[test]
fn request_line_names_method_and_version() {
    let req = Request::builder()
        .method(Method::POST)
        .version(Version::HTTP_10)
        .uri(Uri::parse("http://example.com/submit").unwrap())
        .body(Body::empty())
        .unwrap();
    let bytes = RequestParser::encode(req).unwrap();
    assert_eq!(b"POST /submit HTTP/1.0\r\n\r\n".as_ref(), bytes.as_ref());
}

#[test]
fn headers_keep_their_order_and_duplicates() {
    let req = Request::builder()
        .uri(Uri::parse("http://example.com/").unwrap())
        .header("Host", "example.com")
        .header("User-Agent", "request-rs")
        .header("Accept", "a")
        .header("Accept", "b")
        .body(Body::empty())
        .unwrap();
    let bytes = RequestParser::encode(req).unwrap();
    assert_eq!(
        b"GET / HTTP/1.1\r\nhost: example.com\r\nuser-agent: request-rs\r\naccept: a\r\naccept: b\r\n\r\n".as_ref(),
        bytes.as_ref()
    );
}

#[test]
fn body_follows_the_blank_line() {
    let req = Request::builder()
        .uri(Uri::parse("http://example.com/").unwrap())
        .body(Body::from_str("username=123"))
        .unwrap();
    let bytes = RequestParser::encode(req).unwrap();
    assert_eq!(b"GET / HTTP/1.1\r\n\r\nusername=123".as_ref(), bytes.as_ref());

    let req = Request::builder()
        .uri(Uri::parse("http://example.com/").unwrap())
        .body(Body::from_bytes(&[0u8, 255, 13, 10]))
        .unwrap();
    let bytes = RequestParser::encode(req).unwrap();
    assert_eq!(b"GET / HTTP/1.1\r\n\r\n\x00\xff\r\n".as_ref(), bytes.as_ref());
}

#[test]
fn encode_adds_no_headers() {
    let req = Request::builder()
        .uri(Uri::parse("http://example.com/").unwrap())
        .body(Body::from_str("abc"))
        .unwrap();
    let bytes = RequestParser::encode(req).unwrap();
    let text = String::from_utf8_lossy(bytes.as_ref()).to_lowercase();
    assert!(!text.contains("content-length"));
    assert!(!text.contains("host:"));
}

#[test]
fn encode_without_url_fails() {
    let req = Request::builder().body(Body::empty()).unwrap();
    let err = RequestParser::encode(req).unwrap_err();
    assert_eq!(Failure::InvalidUrl, err.get_failure());
}

#[test]
fn encode_with_invisible_header_value_fails() {
    let mut headers = HeaderMap::new();
    headers.append(
        HeaderName::from_str("X-Raw").unwrap(),
        HeaderValue::from_bytes(&[0x80, 0x81]).unwrap(),
    );
    let req = Request::builder()
        .uri(Uri::parse("http://example.com/").unwrap())
        .replace_header_map(headers)
        .body(Body::empty())
        .unwrap();
    let err = RequestParser::encode(req).unwrap_err();
    assert_eq!(Failure::ToStrError, err.get_failure());
}

#[test]
fn builder_reports_the_first_bad_header() {
    let err = Request::builder()
        .header("Bad Name", "x")
        .header("Good", "bad\nvalue")
        .body(Body::empty())
        .unwrap_err();
    assert_eq!(Failure::HeaderName, err.get_failure());
    let err = Request::builder().header("Good", "bad\nvalue").body(Body::empty()).unwrap_err();
    assert_eq!(Failure::HeaderValue, err.get_failure());
}

#[test]
fn decode_complete_response() {
    let (resp, rest, keep) = complete(
        b"HTTP/1.1 404 Not Found\r\nContent-Length: 150\r\nConnection: keep-alive\r\n\r\n<body>",
    );
    assert_eq!(404, resp.status().as_u16());
    assert_eq!("150", header_text(resp.headers(), "Content-Length"));
    assert_eq!(2, resp.headers().len());
    assert_eq!(b"content-length", resp.headers().name_at(0).as_bytes());
    assert_eq!(b"connection", resp.headers().name_at(1).as_bytes());
    assert_eq!(b"<body>".to_vec(), resp.body().to_vec());
    assert_eq!(6, resp.body().body_length());
    assert_eq!(b"<body>".as_ref(), rest.as_ref());
    assert!(keep);
}

#[test]
fn decode_keeps_equal_names_apart() {
    let (resp, _, _) = complete(b"HTTP/1.1 200 OK\r\nSet-Cookie: a=1\r\nSet-Cookie: b=2\r\n\r\n");
    assert_eq!(2, resp.headers().len());
    assert_eq!(b"a=1", resp.headers().value_at(0).as_bytes());
    assert_eq!(b"b=2", resp.headers().value_at(1).as_bytes());
    assert_eq!("a=1", header_text(resp.headers(), "set-cookie"));
    assert_eq!(0, resp.body().body_length());
}

#[test]
fn decode_truncated_head_is_partial() {
    let input = b"HTTP/1.1 200 OK\r\nContent-Typ";
    let (r, rest, keep) = decode(input);
    assert!(matches!(r, Ok(ParserResult::Partial)));
    assert_eq!(input.as_ref(), rest.as_ref());
    assert!(!keep);
}

#[test]
fn decode_empty_buffer_is_partial() {
    let (r, rest, _) = decode(b"");
    assert!(matches!(r, Ok(ParserResult::Partial)));
    assert!(rest.is_empty());
}

#[test]
fn keep_alive_matrix() {
    assert!(complete(b"HTTP/1.1 200 OK\r\n\r\n").2);
    assert!(!complete(b"HTTP/1.1 200 OK\r\nConnection: close\r\n\r\n").2);
    assert!(!complete(b"HTTP/1.0 200 OK\r\n\r\n").2);
    assert!(complete(b"HTTP/1.0 200 OK\r\nConnection: keep-alive\r\n\r\n").2);
}

#[test]
fn keep_alive_reads_token_lists() {
    assert!(!complete(b"HTTP/1.1 200 OK\r\nConnection: Upgrade , CLOSE\r\n\r\n").2);
    assert!(complete(b"HTTP/1.1 200 OK\r\nConnection: closed\r\n\r\n").2);
    assert!(complete(b"HTTP/1.0 200 OK\r\nConnection: foo,Keep-Alive\r\n\r\n").2);
    assert!(!complete(b"HTTP/1.0 200 OK\r\nConnection: keep alive\r\n\r\n").2);
    assert!(complete(b"HTTP/1.0 200 OK\r\nConnection: close\r\nConnection: keep-alive\r\n\r\n").2);
    assert!(!complete(b"HTTP/1.1 200 OK\r\nConnection: keep-alive\r\nConnection: close\r\n\r\n").2);
}

#[test]
fn decode_version_10() {
    let (resp, _, _) = complete(b"HTTP/1.0 200 OK\r\n\r\nhello");
    assert_eq!(Version::HTTP_10, resp.version());
    assert_eq!(b"hello".to_vec(), resp.body().to_vec());
}

#[test]
fn oversized_header_name_is_an_error() {
    let mut input = b"HTTP/1.1 200 OK\r\n".to_vec();
    input.extend(std::iter::repeat(b'a').take(65536));
    input.extend_from_slice(b": v\r\n\r\nbody");
    let (r, rest, _) = decode(&input);
    assert_eq!(Failure::HeaderName, r.unwrap_err().get_failure());
    assert_eq!(input.as_slice(), rest.as_ref());

    let mut input = b"HTTP/1.1 200 OK\r\n".to_vec();
    input.extend(std::iter::repeat(b'a').take(65535));
    input.extend_from_slice(b": v\r\n\r\nbody");
    let (resp, rest, _) = complete(&input);
    assert_eq!(65535, resp.headers().name_at(0).as_bytes().len());
    assert_eq!(b"body".as_ref(), rest.as_ref());
}

#[test]
fn malformed_input_is_an_error() {
    let (r, rest, _) = decode(b"HTTP/1.1 200 OK\r\nno colon here\r\n\r\n");
    assert_eq!(Failure::Tokenizer(TokenizerFailure::HeaderName), r.unwrap_err().get_failure());
    assert_eq!(b"HTTP/1.1 200 OK\r\nno colon here\r\n\r\n".as_ref(), rest.as_ref());
    let (r, _, _) = decode(b"HTTP/1.1 2x0 OK\r\n\r\n");
    assert_eq!(Failure::Tokenizer(TokenizerFailure::Status), r.unwrap_err().get_failure());
    let (r, _, _) = decode(b"HTTX/1.1 200 OK\r\n\r\n");
    assert_eq!(Failure::Tokenizer(TokenizerFailure::Version), r.unwrap_err().get_failure());
    let (r, _, _) = decode(b"HTTP/1.1 200 OK\r\nA: b\rX\r\n\r\n");
    assert_eq!(Failure::Tokenizer(TokenizerFailure::HeaderValue), r.unwrap_err().get_failure());
    let (r, _, _) = decode(b"HTTP/1.1 200 OK\r\n\rX");
    assert_eq!(Failure::Tokenizer(TokenizerFailure::NewLine), r.unwrap_err().get_failure());
}

#[test]
fn status_code_below_100_is_an_error() {
    let (r, rest, _) = decode(b"HTTP/1.1 099 Low\r\n\r\n");
    assert_eq!(Failure::StatusCode, r.unwrap_err().get_failure());
    assert_eq!(b"HTTP/1.1 099 Low\r\n\r\n".as_ref(), rest.as_ref());
    let (resp, _, _) = complete(b"HTTP/1.1 999 High\r\n\r\n");
    assert_eq!(999, resp.status().as_u16());
}

#[test]
fn too_many_headers_is_an_error() {
    let mut input = b"HTTP/1.1 200 OK\r\n".to_vec();
    for _ in 0..101 {
        input.extend_from_slice(b"A: b\r\n");
    }
    input.extend_from_slice(b"\r\n");
    let (r, _, _) = decode(&input);
    assert_eq!(Failure::Tokenizer(TokenizerFailure::TooManyHeaders), r.unwrap_err().get_failure());

    let mut input = b"HTTP/1.1 200 OK\r\n".to_vec();
    for _ in 0..100 {
        input.extend_from_slice(b"A: b\r\n");
    }
    input.extend_from_slice(b"\r\n");
    let (resp, _, _) = complete(&input);
    assert_eq!(100, resp.headers().len());
}

#[test]
fn decoding_twice_gives_equal_responses() {
    let input = b"HTTP/1.1 404 Not Found\r\nContent-Length: 150\r\nConnection: keep-alive\r\n\r\n<body>";
    let (a, rest_a, keep_a) = complete(input);
    let (b, rest_b, keep_b) = complete(input);
    assert_eq!(a.status(), b.status());
    assert_eq!(a.version(), b.version());
    assert_eq!(a.headers().len(), b.headers().len());
    for i in 0..a.headers().len() {
        assert_eq!(a.headers().name_at(i).as_bytes(), b.headers().name_at(i).as_bytes());
        assert_eq!(a.headers().value_at(i).as_bytes(), b.headers().value_at(i).as_bytes());
    }
    assert_eq!(a.body().to_vec(), b.body().to_vec());
    assert_eq!(rest_a, rest_b);
    assert_eq!(keep_a, keep_b);
}

#[test]
fn header_values_are_trimmed_by_the_tokenizer_only() {
    let (resp, _, _) = complete(b"HTTP/1.1 200 OK\r\nX-Empty:\r\nX-Bytes: \xe4\xbd\xa0 \r\n\r\n");
    assert_eq!(b"", resp.headers().value_at(0).as_bytes());
    assert_eq!(b"\xe4\xbd\xa0", resp.headers().value_at(1).as_bytes());
}
