use std::collections::VecDeque;
use std::time::Duration;

use salvo_kit::conn::holding::Version;
use salvo_kit::conn::quinn::Builder;
use salvo_kit::conn::{HttpBuilder, Protocol, TransportAcceptor};
use salvo_kit::http::body::{Polled, ResBody};
use salvo_kit::http::request::{
    accept, content_type, first_accept, form_data, parse_body, parse_form, parse_json,
    payload_with_max_size, BodyFormat, ErrorPage, ParseError,
};
use salvo_kit::http::{is_tchar, HeaderName, HeaderText, MediaType, Method};
use salvo_kit::server::Server;

type Body = ResBody<&'static str>;

fn text(value: &str) -> HeaderText {
    HeaderText::Text(value.to_string())
}

#[test]
fn bodies_tell_their_kind() {
    assert!(Body::Empty.is_none());
    assert!(!Body::Once(vec![1]).is_none());
    assert!(Body::Once(vec![1]).is_once());
    assert!(Body::Chunks(VecDeque::new()).is_chunks());
    assert!(Body::Boxed("b").is_boxed());
    assert!(Body::Stream("s").is_stream());
    assert!(Body::Error(500).is_error());
    assert!(!Body::Hyper("h").is_error());
}

#[test]
fn size_is_known_of_bodies_in_memory() {
    assert_eq!(Body::Empty.size(), Some(0));
    assert_eq!(Body::Once(vec![1, 2, 3]).size(), Some(3));
    assert_eq!(Body::Chunks(VecDeque::from(vec![vec![1], vec![], vec![2, 3]])).size(), Some(3));
    assert_eq!(Body::Chunks(VecDeque::new()).size(), Some(0));
    assert_eq!(Body::Hyper("h").size(), None);
    assert_eq!(Body::Boxed("b").size(), None);
    assert_eq!(Body::Stream("s").size(), None);
    assert_eq!(Body::Error(404).size(), None);
}

#[test]
fn take_leaves_no_body() {
    let mut body = Body::Once(vec![1]);
    assert_eq!(body.take(), Body::Once(vec![1]));
    assert_eq!(body, Body::Empty);
    assert_eq!(body.take(), Body::Empty);
}

#[test]
fn bodies_in_memory_yield_their_pieces_in_order() {
    let mut body = Body::Chunks(VecDeque::from(vec![vec![1], vec![2, 3]]));
    assert!(!body.is_end_stream());
    assert_eq!(body.poll_next(), Polled::Piece(vec![1]));
    assert_eq!(body.poll_next(), Polled::Piece(vec![2, 3]));
    assert!(body.is_end_stream());
    assert_eq!(body.poll_next(), Polled::End);
    assert_eq!(body, Body::Chunks(VecDeque::new()));

    let mut body = Body::Once(vec![7]);
    assert_eq!(body.poll_next(), Polled::Piece(vec![7]));
    assert_eq!(body, Body::Once(vec![]));
    assert_eq!(body.poll_next(), Polled::End);

    assert_eq!(Body::Empty.poll_next(), Polled::End);
    let mut body = Body::Error(500);
    assert_eq!(body.poll_next(), Polled::End);
    assert_eq!(body, Body::Error(500));
    let mut body = Body::Stream("s");
    assert_eq!(body.poll_next(), Polled::Elsewhere);
    assert_eq!(body, Body::Stream("s"));
    assert!(!body.is_end_stream());
}

#[test]
fn accepted_media_types_are_read_in_order() {
    assert_eq!(
        accept(&text("text/html,bogus,application/json;q=0.9")),
        vec![MediaType::new("text", "html"), MediaType::new("application", "json")]
    );
    assert_eq!(accept(&text("")), vec![]);
    assert_eq!(accept(&HeaderText::Absent), vec![]);
    assert_eq!(accept(&HeaderText::Opaque), vec![]);
    assert_eq!(first_accept(&text("bogus,text/plain,text/html")), Some(MediaType::new("text", "plain")));
    assert_eq!(first_accept(&text("bogus")), None);
    assert_eq!(first_accept(&HeaderText::Absent), None);
    assert_eq!(content_type(&text("application/json")), Some(MediaType::new("application", "json")));
    assert_eq!(content_type(&text("bogus")), None);
    assert_eq!(content_type(&HeaderText::Opaque), None);
}

#[test]
fn bodies_are_read_by_their_content_type() {
    let media = |kind: &str, subtype: &str| Some(MediaType::new(kind, subtype));
    assert_eq!(parse_body(&media("application", "json")), Ok(BodyFormat::Json));
    assert_eq!(parse_body(&media("application", "x-www-form-urlencoded")), Ok(BodyFormat::Form));
    assert_eq!(parse_body(&media("multipart", "form-data")), Ok(BodyFormat::Form));
    assert_eq!(parse_body(&media("text", "plain")), Err(ParseError::InvalidContentType));
    assert_eq!(parse_body(&None), Err(ParseError::InvalidContentType));
    assert_eq!(parse_json(&media("application", "json")), Ok(()));
    assert_eq!(parse_json(&media("text", "plain")), Err(ParseError::InvalidContentType));
    assert_eq!(parse_json(&None), Err(ParseError::InvalidContentType));
    assert_eq!(parse_form(&media("multipart", "form-data")), Ok(()));
    assert_eq!(parse_form(&media("multipart", "mixed")), Err(ParseError::InvalidContentType));
    assert_eq!(parse_form(&None), Err(ParseError::InvalidContentType));
    assert_eq!(form_data(&media("multipart", "mixed")), Ok(()));
    assert_eq!(form_data(&media("application", "x-www-form-urlencoded")), Ok(()));
    assert_eq!(form_data(&media("application", "json")), Err(ParseError::NotFormData));
    assert_eq!(form_data(&None), Err(ParseError::NotFormData));
}

#[test]
fn payload_is_limited() {
    assert_eq!(payload_with_max_size(0, 10, 10), Ok(10));
    assert_eq!(payload_with_max_size(4, 6, 10), Ok(10));
    assert_eq!(payload_with_max_size(4, 7, 10), Err(ParseError::other("length limit exceeded")));
    assert_eq!(payload_with_max_size(usize::MAX, 1, usize::MAX), Err(ParseError::other("length limit exceeded")));
    assert_eq!(payload_with_max_size(11, 0, 10), Err(ParseError::other("length limit exceeded")));
    assert_eq!(ParseError::other("x"), ParseError::Other("x".to_string()));
}

#[test]
fn parse_errors_are_answered_as_bad_requests() {
    let page = ParseError::other("x").write();
    assert_eq!(
        page,
        ErrorPage { status: 400, brief: "parse http data failed.", cause: "Other error: x".to_string() }
    );
    assert_eq!(
        ParseError::InvalidContentType.message(),
        "The request did not have a valid Content-Type header."
    );
    assert_eq!(
        ParseError::NotFormData.message(),
        "The Hyper request Content-Type sub-level Mime was not `FormData`."
    );
}

#[test]
fn connections_are_served_by_the_engine_of_their_version() {
    let builder = HttpBuilder::new();
    assert_eq!(builder.quinn, Builder::new());
    assert_eq!(builder.protocol_for(Version::Http09), Protocol::Http1);
    assert_eq!(builder.protocol_for(Version::Http10), Protocol::Http1);
    assert_eq!(builder.protocol_for(Version::Http11), Protocol::Http1);
    assert_eq!(builder.protocol_for(Version::Http2), Protocol::Http2);
    assert_eq!(builder.protocol_for(Version::Http3), Protocol::Http3);
    let idle = Some(Duration::from_secs(5));
    assert_eq!(builder.idle_timeout_for(Version::Http11, idle), idle);
    assert_eq!(builder.idle_timeout_for(Version::Http2, idle), idle);
    assert_eq!(builder.idle_timeout_for(Version::Http3, idle), None);
    assert_eq!(builder.idle_timeout_for(Version::Http11, None), None);
}

#[test]
fn server_keeps_its_engines() {
    let mut custom = HttpBuilder::new();
    custom.quinn.send_grease = false;
    let mut server = Server::with_http_builder(TransportAcceptor::new((), vec![]), custom);
    assert_eq!(server.http_builder(), custom);
    server.quinn_mut().max_webtransport_sessions = 4;
    assert_eq!(server.http_builder().quinn.max_webtransport_sessions, 4);
    assert!(!server.http_builder().quinn.send_grease);
    *server.acceptor_mut().transport_mut() = ();
    assert_eq!(Server::new(TransportAcceptor::new((), vec![])).http_builder(), HttpBuilder::new());
}

#[test]
fn tokens_are_made_of_the_bytes_that_methods_and_header_names_take() {
    for byte in 0..=255u8 {
        assert_eq!(is_tchar(byte), Method::from_bytes(&[byte]).is_ok(), "{byte}");
        assert_eq!(is_tchar(byte), HeaderName::from_bytes(&[byte]).is_ok(), "{byte}");
        assert_eq!(is_tchar(byte), http::Method::from_bytes(&[byte]).is_ok(), "{byte}");
        assert_eq!(is_tchar(byte), http::header::HeaderName::from_bytes(&[byte]).is_ok(), "{byte}");
        if is_tchar(byte) {
            let method = Method::from_bytes(&[b'X', byte]).unwrap();
            assert_eq!(method.as_str().as_bytes(), &[b'X', byte]);
            let name = HeaderName::from_bytes(&[b'X', byte]).unwrap();
            assert_eq!(name.as_str().as_bytes(), &[b'x', byte.to_ascii_lowercase()]);
        }
    }
    assert!(Method::from_bytes(&[b'A'; 100]).is_ok());
    assert!(HeaderName::from_bytes(&vec![b'a'; 65535]).is_ok());
    assert!(HeaderName::from_bytes(&vec![b'a'; 65536]).is_err());
    assert_eq!(HeaderName::from_bytes(&vec![b'A'; 70]).unwrap().as_str(), "a".repeat(70));
}
