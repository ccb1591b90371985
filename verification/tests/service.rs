use salvo_kit::conn::holding::{Scheme, SocketAddr, Version};
use salvo_kit::http::{
    is_client_error, is_server_error, secure_max_size, set_secure_max_size, HeaderName, MediaType,
    Method, SecureMaxSize,
};
use salvo_kit::service::{
    conclude, media_type_allowed, BodyKind, ContentType, Exchange, Service, Verdict,
};

fn exchange(matched: bool, status: Option<u16>, content_type: ContentType, body: BodyKind) -> Exchange {
    Exchange { method: Method::get(), matched, status, content_type, body }
}

fn text(value: &str) -> ContentType {
    ContentType::Text(value.to_string())
}

fn handler(allowed: Vec<MediaType>, catcher: bool) -> salvo_kit::service::HyperHandler {
    let service = Service::<&str, &str>::new("router").allowed_media_types(allowed);
    let service = if catcher { service.catcher("catcher") } else { service };
    service.hyper_handler(
        SocketAddr::IPv4 { octets: [127, 0, 0, 1], port: 80 },
        SocketAddr::Unknown,
        Scheme::Http,
        Some("h3=\":443\"".to_string()),
    )
}

#[test]
fn service_keeps_what_it_is_given() {
    let service = Service::<u8, u8>::new(1);
    assert_eq!(*service.router(), 1);
    assert_eq!(service.catcher, None);
    assert!(service.allowed_media_types.is_empty());
    let service = service.catcher(2).allowed_media_types(vec![MediaType::new("text", "plain")]);
    assert_eq!(service.catcher, Some(2));
    assert_eq!(service.allowed_media_types, vec![MediaType::new("text", "plain")]);
    let handler = service.hyper_handler(SocketAddr::Unknown, SocketAddr::Unknown, Scheme::Https, None);
    assert!(handler.has_catcher);
    assert_eq!(handler.allowed_media_types, vec![MediaType::new("text", "plain")]);
    assert_eq!(handler.http_scheme, Scheme::Https);
    assert_eq!(handler.alt_svc_h3, None);
}

#[test]
fn alt_svc_goes_on_other_versions_only() {
    let handler = handler(vec![], false);
    assert_eq!(handler.alt_svc(Version::Http11, false), Some("h3=\":443\""));
    assert_eq!(handler.alt_svc(Version::Http2, false), Some("h3=\":443\""));
    assert_eq!(handler.alt_svc(Version::Http3, false), None);
    assert_eq!(handler.alt_svc(Version::Http11, true), None);
    assert_eq!(handler.request_scheme(None), Scheme::Http);
    assert_eq!(handler.request_scheme(Some(Scheme::Https)), Scheme::Https);
}

#[test]
fn unmatched_request_is_not_found_and_gets_an_error_page() {
    let verdict = handler(vec![], false).handle(&exchange(false, None, ContentType::Absent, BodyKind::Empty));
    assert_eq!(
        verdict,
        Verdict {
            status: 404,
            write_error_page: true,
            by_catcher: false,
            lacks_content_type: false,
            head_with_body: false
        }
    );
    let verdict = handler(vec![], true).handle(&exchange(false, Some(200), ContentType::Absent, BodyKind::Error));
    assert_eq!(verdict.status, 404);
    assert!(verdict.write_error_page);
    assert!(verdict.by_catcher);
}

#[test]
fn matched_request_without_status_is_ok() {
    let verdict = handler(vec![], true).handle(&exchange(true, None, text("text/plain"), BodyKind::Content));
    assert_eq!(
        verdict,
        Verdict {
            status: 200,
            write_error_page: false,
            by_catcher: false,
            lacks_content_type: false,
            head_with_body: false
        }
    );
    let verdict = handler(vec![], true).handle(&exchange(true, Some(500), text("text/plain"), BodyKind::Content));
    assert_eq!(verdict.status, 500);
    assert!(!verdict.write_error_page);
}

#[test]
fn media_type_outside_the_allowed_is_unsupported() {
    let allowed = vec![MediaType::new("application", "json"), MediaType::new("text", "plain")];
    let handler = handler(allowed, false);
    let ok = |content_type| handler.handle(&exchange(true, Some(200), content_type, BodyKind::Content)).status;
    assert_eq!(ok(text("text/plain")), 200);
    assert_eq!(ok(text("Text/Plain; charset=utf-8")), 200);
    assert_eq!(ok(text("application/json")), 200);
    assert_eq!(ok(text("text/html")), 415);
    assert_eq!(ok(text("not a media type")), 415);
    assert_eq!(ok(ContentType::Opaque), 415);
    assert_eq!(ok(ContentType::Absent), 200);
}

#[test]
fn every_media_type_is_allowed_where_none_is_named() {
    let handler = handler(vec![], false);
    let verdict = handler.handle(&exchange(true, Some(200), text("not a media type"), BodyKind::Content));
    assert_eq!(verdict.status, 200);
    let verdict = handler.handle(&exchange(true, Some(200), ContentType::Opaque, BodyKind::Content));
    assert_eq!(verdict.status, 415);
    assert!(media_type_allowed(&vec![], &None));
    assert!(!media_type_allowed(&vec![MediaType::new("a", "b")], &None));
    assert!(media_type_allowed(&vec![MediaType::new("a", "b")], &Some(MediaType::new("a", "b"))));
    assert!(!media_type_allowed(&vec![MediaType::new("a", "b")], &Some(MediaType::new("a", "c"))));
}

#[test]
fn missing_content_type_is_noted_for_methods_that_answer_with_content() {
    let handler = handler(vec![], false);
    let lacks = |method: Method, status: Option<u16>, body: BodyKind| {
        handler
            .handle(&Exchange { method, matched: true, status, content_type: ContentType::Absent, body })
            .lacks_content_type
    };
    assert!(lacks(Method::get(), None, BodyKind::Empty));
    assert!(lacks(Method::post(), Some(201), BodyKind::Empty));
    assert!(lacks(Method::patch(), None, BodyKind::Empty));
    assert!(lacks(Method::put(), None, BodyKind::Empty));
    assert!(!lacks(Method::delete(), None, BodyKind::Empty));
    assert!(!lacks(Method::get(), Some(204), BodyKind::Empty));
    assert!(!lacks(Method::get(), Some(404), BodyKind::Empty));
    assert!(!lacks(Method::get(), None, BodyKind::Content));
}

#[test]
fn head_with_a_body_is_noted() {
    let handler = handler(vec![], false);
    let head = |body| {
        handler
            .handle(&Exchange {
                method: Method::head(),
                matched: true,
                status: Some(200),
                content_type: ContentType::Absent,
                body,
            })
            .head_with_body
    };
    assert!(head(BodyKind::Content));
    assert!(!head(BodyKind::Empty));
    let verdict = conclude(&vec![], true, &exchange(true, Some(404), ContentType::Absent, BodyKind::Content), &None);
    assert!(!verdict.write_error_page);
    assert!(!verdict.by_catcher);
}

#[test]
fn methods_are_told_by_their_tokens() {
    assert_eq!(Method::from_bytes(b"GET"), Ok(Method::get()));
    assert_eq!(Method::from_bytes(b"PURGE").unwrap().as_str(), "PURGE");
    assert!(Method::from_bytes(b"G T").is_err());
    assert!(Method::from_bytes(b"").is_err());
    assert!(Method::options().is("OPTIONS"));
    assert!(!Method::options().is("options"));
    assert!(Method::trace().same_as(&Method::trace()));
    assert!(!Method::trace().same_as(&Method::connect()));
    assert_eq!(Method::delete().clone(), Method::delete());
}

#[test]
fn header_names_are_in_lower_case() {
    assert_eq!(HeaderName::from_bytes(b"Content-Type").unwrap().as_str(), "content-type");
    assert!(HeaderName::from_bytes(b"content type").is_err());
    assert!(HeaderName::from_bytes(b"").is_err());
    let name = HeaderName::from_bytes(b"X-Id").unwrap();
    assert!(name.same_as(&HeaderName::from_bytes(b"x-id").unwrap()));
    assert_eq!(name.clone(), name);
}

#[test]
fn media_types_are_parsed_without_parameters() {
    let media = MediaType::parse("Text/Plain; charset=utf-8").unwrap();
    assert_eq!(media, MediaType::new("text", "plain"));
    assert!(media.matches(&MediaType::new("text", "plain")));
    assert!(!media.matches(&MediaType::new("text", "html")));
    assert_eq!(MediaType::parse("image/svg+xml").unwrap(), MediaType::new("image", "svg"));
    assert_eq!(MediaType::parse("nonsense"), None);
    assert_eq!(media.clone(), media);
}

#[test]
fn status_classes() {
    assert!(is_client_error(400));
    assert!(is_client_error(499));
    assert!(!is_client_error(399));
    assert!(!is_client_error(500));
    assert!(is_server_error(500));
    assert!(is_server_error(599));
    assert!(!is_server_error(600));
    assert!(!is_server_error(499));
}

#[test]
fn secure_max_size_starts_at_64_kib() {
    let mut limit = SecureMaxSize::new();
    assert_eq!(secure_max_size(&limit), 64 * 1024);
    assert!(limit.admits(64 * 1024));
    assert!(!limit.admits(64 * 1024 + 1));
    set_secure_max_size(&mut limit, 10);
    assert_eq!(secure_max_size(&limit), 10);
    assert!(limit.admits(10));
    assert!(!limit.admits(11));
}
