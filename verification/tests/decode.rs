use bytes::BytesMut;
use request_rs::error::Failure;
use request_rs::proto::http1::parse::ResponseParser;
use request_rs::proto::ParserResult;
use request_rs::tokenizer::{failure_kind, RawHead, RawHeader, TokenizerFailure};
use request_rs::version::Version;

const INPUT: &[u8] = b"HTTP/1.1 200 OK\r\nA: b\r\nCc: dd\r\n\r\nxyz";

fn located() -> Vec<RawHeader> {
    vec![
        RawHeader { name_start: 17, name_len: 1, value_start: 20, value_len: 1 },
        RawHeader { name_start: 23, name_len: 2, value_start: 27, value_len: 2 },
    ]
}

#[test]
fn decode_located_head() {
    let mut buf = BytesMut::from(INPUT);
    let head = RawHead { consumed: 33, code: Some(200), minor_version: Some(0), headers: located() };
    let mut parser = ResponseParser::new();
    match parser.decode(&mut buf, &head).unwrap() {
        ParserResult::Complete(resp) => {
            assert_eq!(200, resp.status().as_u16());
            assert_eq!(Version::HTTP_10, resp.version());
            assert_eq!(2, resp.headers().len());
            assert_eq!(b"a", resp.headers().name_at(0).as_bytes());
            assert_eq!(b"b", resp.headers().value_at(0).as_bytes());
            assert_eq!(b"cc", resp.headers().name_at(1).as_bytes());
            assert_eq!(b"dd", resp.headers().value_at(1).as_bytes());
            assert_eq!(b"xyz".to_vec(), resp.body().to_vec());
        }
        ParserResult::Partial => panic!("partial"),
    }
    assert_eq!(b"xyz".as_ref(), buf.as_ref());
    assert!(!parser.keep_alive());
}

#[test]
fn decode_without_minor_version_is_http_11() {
    let mut buf = BytesMut::from(INPUT);
    let head = RawHead { consumed: 33, code: Some(200), minor_version: None, headers: located() };
    let mut parser = ResponseParser::new();
    match parser.decode(&mut buf, &head).unwrap() {
        ParserResult::Complete(resp) => assert_eq!(Version::HTTP_11, resp.version()),
        ParserResult::Partial => panic!("partial"),
    }
    assert!(parser.keep_alive());
}

#[test]
fn decode_without_status_code_fails_and_keeps_the_buffer() {
    let mut buf = BytesMut::from(INPUT);
    let head = RawHead { consumed: 33, code: None, minor_version: Some(1), headers: located() };
    let mut parser = ResponseParser::new();
    let err = parser.decode(&mut buf, &head).unwrap_err();
    assert_eq!(Failure::StatusCode, err.get_failure());
    assert_eq!(INPUT, buf.as_ref());
    assert!(!parser.keep_alive());
}

#[test]
fn decode_with_a_name_that_is_no_name_fails_after_the_split() {
    let mut buf = BytesMut::from(INPUT);
    let mut headers = located();
    // takes the colon into the name
    headers[1].name_len = 3;
    let head = RawHead { consumed: 33, code: Some(200), minor_version: Some(1), headers };
    let mut parser = ResponseParser::new();
    let err = parser.decode(&mut buf, &head).unwrap_err();
    assert_eq!(Failure::HeaderName, err.get_failure());
    assert_eq!(b"xyz".as_ref(), buf.as_ref());
    assert!(!parser.keep_alive());
}

#[test]
fn decode_with_an_empty_name_fails() {
    let mut buf = BytesMut::from(INPUT);
    let mut headers = located();
    headers[0].name_len = 0;
    let head = RawHead { consumed: 33, code: Some(200), minor_version: Some(1), headers };
    let mut parser = ResponseParser::new();
    let err = parser.decode(&mut buf, &head).unwrap_err();
    assert_eq!(Failure::HeaderName, err.get_failure());
}

#[test]
fn a_failed_decode_keeps_the_earlier_decision() {
    let mut parser = ResponseParser::new();
    let mut buf = BytesMut::from(b"HTTP/1.1 200 OK\r\n\r\n".as_ref());
    assert!(matches!(parser.parse(&mut buf), Ok(ParserResult::Complete(_))));
    assert!(parser.keep_alive());
    let mut buf = BytesMut::from(b"HTTP/1.0 2".as_ref());
    assert!(matches!(parser.parse(&mut buf), Ok(ParserResult::Partial)));
    assert!(parser.keep_alive());
    let mut buf = BytesMut::from(b"HTTP/1.0 0x0 OK\r\n\r\n".as_ref());
    assert!(parser.parse(&mut buf).is_err());
    assert!(parser.keep_alive());
    let mut buf = BytesMut::from(b"HTTP/1.0 200 OK\r\n\r\n".as_ref());
    assert!(matches!(parser.parse(&mut buf), Ok(ParserResult::Complete(_))));
    assert!(!parser.keep_alive());
}

#[test]
fn tokenizer_failures_keep_their_kind() {
    assert_eq!(TokenizerFailure::HeaderName, failure_kind(httparse::Error::HeaderName));
    assert_eq!(TokenizerFailure::HeaderValue, failure_kind(httparse::Error::HeaderValue));
    assert_eq!(TokenizerFailure::NewLine, failure_kind(httparse::Error::NewLine));
    assert_eq!(TokenizerFailure::Status, failure_kind(httparse::Error::Status));
    assert_eq!(TokenizerFailure::Token, failure_kind(httparse::Error::Token));
    assert_eq!(TokenizerFailure::TooManyHeaders, failure_kind(httparse::Error::TooManyHeaders));
    assert_eq!(TokenizerFailure::Version, failure_kind(httparse::Error::Version));
}
