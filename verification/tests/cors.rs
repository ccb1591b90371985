use std::time::Duration;

use salvo_kit::cors::{
    methods_value, names_value, preflight_request_headers, AllowHeaders, AllowMethods, AllowOrigin,
    Any, Cors, CorsBuilder, ExposeHeaders, Forbidden, ResponseHeader, Seconds, Validated,
};
use salvo_kit::http::{HeaderName, HeaderText, Method};

fn name(text: &str) -> HeaderName {
    HeaderName::from_bytes(text.as_bytes()).unwrap()
}

fn strict() -> Cors {
    Cors::builder()
        .allow_origin("https://salvo.rs")
        .allow_methods(AllowMethods::List(vec![Method::get(), Method::post(), Method::options()]))
        .allow_headers(AllowHeaders::List(vec![
            name("CONTENT-TYPE"),
            name("Access-Control-Request-Method"),
            name("Access-Control-Allow-Origin"),
            name("Access-Control-Allow-Headers"),
            name("Access-Control-Max-Age"),
        ]))
        .build()
}

fn pairs(headers: &[ResponseHeader]) -> Vec<(&str, &str)> {
    headers.iter().map(|header| (header.name, header.value.as_str())).collect()
}

#[test]
fn builder_starts_strict() {
    let builder = CorsBuilder::new();
    assert!(!builder.allow_credentials);
    assert_eq!(builder.allow_headers, AllowHeaders::List(vec![]));
    assert_eq!(builder.allow_methods, AllowMethods::List(vec![]));
    assert_eq!(builder.allow_origin, AllowOrigin::List(vec![]));
    assert_eq!(builder.expose_headers, ExposeHeaders::List(vec![]));
    assert_eq!(builder.max_age, None);
    assert_eq!(Cors::builder(), builder);
}

#[test]
fn permissive_builders() {
    let builder = CorsBuilder::permissive();
    assert!(!builder.allow_credentials);
    assert_eq!(builder.allow_headers, AllowHeaders::Any);
    assert_eq!(builder.allow_methods, AllowMethods::Any);
    assert_eq!(builder.allow_origin, AllowOrigin::Any);
    assert_eq!(builder.expose_headers, ExposeHeaders::Any);

    let builder = CorsBuilder::very_permissive();
    assert!(builder.allow_credentials);
    assert_eq!(builder.allow_headers, AllowHeaders::MirrorRequest);
    assert_eq!(builder.allow_methods, AllowMethods::MirrorRequest);
    assert_eq!(builder.allow_origin, AllowOrigin::MirrorRequest);
    assert_eq!(builder.expose_headers, ExposeHeaders::List(vec![]));
}

#[test]
fn builder_sets_what_it_names() {
    let builder = CorsBuilder::new()
        .allow_credentials(true)
        .max_age(30u32)
        .expose_headers(vec![name("x-a")])
        .expose_header(name("x-b"))
        .allow_origins(vec!["https://a.example".to_string()])
        .allow_origin("https://b.example");
    assert!(builder.allow_credentials);
    assert_eq!(builder.max_age, Some(30));
    assert_eq!(builder.expose_headers, ExposeHeaders::List(vec![name("x-a"), name("x-b")]));
    assert_eq!(
        builder.allow_origin,
        AllowOrigin::List(vec!["https://a.example".to_string(), "https://b.example".to_string()])
    );
    let builder = builder.allow_any_origin().max_age(7u64);
    assert_eq!(builder.allow_origin, AllowOrigin::Any);
    assert_eq!(builder.max_age, Some(7));
    let builder = builder.allow_origin("https://c.example").expose_all_headers(Any);
    assert_eq!(builder.allow_origin, AllowOrigin::List(vec!["https://c.example".to_string()]));
    assert_eq!(builder.expose_headers, ExposeHeaders::Any);
    let builder = builder.expose_headers(vec![name("x-c")]);
    assert_eq!(builder.expose_headers, ExposeHeaders::List(vec![name("x-c")]));
    assert_eq!(CorsBuilder::new().max_age(30u32).max_age, Some(30));
    assert_eq!(CorsBuilder::new().max_age(Duration::from_secs(30)).max_age, Some(30));
    assert_eq!(CorsBuilder::new().max_age(Duration::from_millis(30_999)).max_age, Some(30));
    assert_eq!(CorsBuilder::new().max_age(Duration::from_millis(999)).max_age, Some(0));
    assert_eq!(Duration::from_secs(7).seconds(), 7);
    assert_eq!(5u32.seconds(), 5);
    assert_eq!(6u64.seconds(), 6);
}

#[test]
fn preflight_headers_are_three() {
    assert_eq!(
        preflight_request_headers(),
        vec!["origin", "access-control-request-method", "access-control-request-headers"]
    );
}

#[test]
fn request_without_origin_is_not_cors() {
    let cors = strict();
    let checked = cors.check_request(&Method::options(), None, None, &HeaderText::Absent);
    assert_eq!(checked, Ok(Validated::NotCors));
    let outcome = cors.handle(checked, "", "", "");
    assert_eq!(outcome.status, None);
    assert!(outcome.proceed);
    assert!(outcome.headers.is_empty());
}

#[test]
fn preflight_of_an_allowed_origin_is_answered() {
    let cors = strict();
    let checked = cors.check_request(
        &Method::options(),
        Some("https://salvo.rs"),
        Some(b"POST"),
        &HeaderText::Text("Content-Type".to_string()),
    );
    assert_eq!(checked, Ok(Validated::Preflight));
    let outcome = cors.handle(checked, "https://salvo.rs", "Content-Type", "POST");
    assert!(outcome.proceed);
    assert_eq!(
        pairs(&outcome.headers),
        vec![
            (
                "access-control-allow-headers",
                "content-type,access-control-request-method,access-control-allow-origin,access-control-allow-headers,access-control-max-age"
            ),
            ("access-control-allow-methods", "GET,POST,OPTIONS"),
            ("access-control-allow-origin", "https://salvo.rs"),
        ]
    );
}

#[test]
fn preflight_is_refused_for_what_is_not_allowed() {
    let cors = strict();
    let check = |origin, method: Option<&[u8]>, headers: HeaderText| {
        cors.check_request(&Method::options(), Some(origin), method, &headers)
    };
    assert_eq!(check("https://google.com", Some(b"POST"), HeaderText::Absent), Err(Forbidden::Origin));
    assert_eq!(check("https://salvo.rs", Some(b"DELETE"), HeaderText::Absent), Err(Forbidden::Method));
    assert_eq!(check("https://salvo.rs", Some(b"P ST"), HeaderText::Absent), Err(Forbidden::Method));
    assert_eq!(check("https://salvo.rs", None, HeaderText::Absent), Err(Forbidden::Method));
    assert_eq!(check("https://salvo.rs", Some(b"GET"), HeaderText::Opaque), Err(Forbidden::Header));
    assert_eq!(
        check("https://salvo.rs", Some(b"GET"), HeaderText::Text("x-other".to_string())),
        Err(Forbidden::Header)
    );
    assert_eq!(
        check("https://salvo.rs", Some(b"GET"), HeaderText::Text("content-type, x-other".to_string())),
        Err(Forbidden::Header)
    );
    assert_eq!(
        check("https://salvo.rs", Some(b"GET"), HeaderText::Text("content-type,access-control-max-age".to_string())),
        Ok(Validated::Preflight)
    );
    assert_eq!(check("https://salvo.rs", Some(b"GET"), HeaderText::Absent), Ok(Validated::Preflight));

    let outcome = cors.handle(Err(Forbidden::Origin), "https://google.com", "", "");
    assert_eq!(outcome.status, Some(403));
    assert!(!outcome.proceed);
    assert!(outcome.headers.is_empty());
}

#[test]
fn simple_request_needs_an_allowed_origin() {
    let cors = strict();
    let checked = cors.check_request(&Method::get(), Some("https://salvo.rs"), None, &HeaderText::Absent);
    assert_eq!(checked, Ok(Validated::Simple));
    let outcome = cors.handle(checked, "https://salvo.rs", "", "");
    assert_eq!(pairs(&outcome.headers), vec![("access-control-allow-origin", "https://salvo.rs")]);
    assert_eq!(
        cors.check_request(&Method::get(), Some("https://google.rs"), None, &HeaderText::Absent),
        Err(Forbidden::Origin)
    );
}

#[test]
fn allowed_checks() {
    let cors = strict();
    assert!(cors.is_origin_allowed("https://salvo.rs"));
    assert!(!cors.is_origin_allowed("https://salvo.rs/"));
    assert!(cors.is_method_allowed(b"GET"));
    assert!(!cors.is_method_allowed(b"get"));
    assert!(cors.is_header_allowed("Content-Type"));
    assert!(!cors.is_header_allowed(" content-type"));
    assert!(cors.is_token_allowed(&Some(Method::post())));
    assert!(!cors.is_token_allowed(&None));
    assert!(cors.is_name_allowed(&Some(name("content-type"))));
    assert!(!cors.is_name_allowed(&Some(name("x-other"))));
    let any = CorsBuilder::permissive().build();
    assert!(any.is_origin_allowed("anything"));
    assert!(any.is_method_allowed(b"PURGE"));
    assert!(!any.is_method_allowed(b"P RGE"));
    assert!(any.is_header_allowed("x-other"));
    assert!(!any.is_header_allowed("x other"));
}

#[test]
fn preflight_answer_carries_all_that_is_set() {
    let cors = CorsBuilder::very_permissive()
        .max_age(30u32)
        .expose_headers(vec![name("x-a"), name("x-b")])
        .build();
    let checked = cors.check_request(
        &Method::options(),
        Some("https://a.example"),
        Some(b"PUT"),
        &HeaderText::Text("x-one,x-two".to_string()),
    );
    assert_eq!(checked, Ok(Validated::Preflight));
    let outcome = cors.handle(checked, "https://a.example", "x-one,x-two", "PUT");
    assert_eq!(
        pairs(&outcome.headers),
        vec![
            ("access-control-allow-credentials", "true"),
            ("access-control-expose-headers", "x-a,x-b"),
            ("access-control-allow-headers", "x-one,x-two"),
            ("access-control-allow-methods", "PUT"),
            ("access-control-max-age", "30"),
            ("access-control-allow-origin", "https://a.example"),
        ]
    );
    let simple = cors.handle(Ok(Validated::Simple), "https://a.example", "", "");
    assert_eq!(
        pairs(&simple.headers),
        vec![
            ("access-control-allow-credentials", "true"),
            ("access-control-expose-headers", "x-a,x-b"),
            ("access-control-allow-origin", "https://a.example"),
        ]
    );
    let any = CorsBuilder::permissive().build();
    let mut headers = Vec::new();
    any.append_preflight_headers(&mut headers, "x", "GET");
    assert_eq!(
        pairs(&headers),
        vec![
            ("access-control-expose-headers", "*"),
            ("access-control-allow-headers", "*"),
            ("access-control-allow-methods", "*"),
        ]
    );
    let mut headers = Vec::new();
    strict().append_common_headers(&mut headers);
    assert!(headers.is_empty());
}

#[test]
fn lists_are_written_with_commas() {
    assert_eq!(names_value(&vec![]), "");
    assert_eq!(names_value(&vec![name("A")]), "a");
    assert_eq!(names_value(&vec![name("a"), name("b"), name("c")]), "a,b,c");
    assert_eq!(methods_value(&vec![Method::get(), Method::put()]), "GET,PUT");
}

#[test]
fn refusals_in_words() {
    assert_eq!(Forbidden::Origin.message(), "CORS request forbidden: origin not allowed");
    assert_eq!(Forbidden::Method.message(), "CORS request forbidden: request-method not allowed");
    assert_eq!(Forbidden::Header.message(), "CORS request forbidden: header not allowed");
}

#[test]
fn values_are_separated_by_commas() {
    assert_eq!(salvo_kit::cors::separated_by_commas(&vec![]), None);
    assert_eq!(
        salvo_kit::cors::separated_by_commas(&vec!["a".to_string()]),
        Some("a".to_string())
    );
    assert_eq!(
        salvo_kit::cors::separated_by_commas(&vec!["a".to_string(), "b".to_string()]),
        Some("a,b".to_string())
    );
}

#[test]
fn what_is_named_twice_is_allowed_once() {
    let cors = Cors::builder()
        .allow_headers(AllowHeaders::List(vec![name("x-a"), name("X-B"), name("X-A"), name("x-b")]))
        .allow_methods(AllowMethods::List(vec![Method::get(), Method::put(), Method::get()]))
        .allow_origins(vec!["https://a.example".to_string(), "https://a.example".to_string()])
        .expose_headers(vec![name("x-c"), name("x-c")])
        .build();
    let mut headers = Vec::new();
    cors.append_preflight_headers(&mut headers, "", "");
    assert_eq!(
        pairs(&headers),
        vec![
            ("access-control-expose-headers", "x-c"),
            ("access-control-allow-headers", "x-a,x-b"),
            ("access-control-allow-methods", "GET,PUT"),
        ]
    );
    assert!(cors.is_origin_allowed("https://a.example"));
    assert!(cors.is_header_allowed("X-B"));
    assert!(cors.is_method_allowed(b"PUT"));
    assert!(!cors.is_method_allowed(b"POST"));
    assert_eq!(
        salvo_kit::text::without_repeats(vec!["b".to_string(), "a".to_string(), "b".to_string()]),
        vec!["b".to_string(), "a".to_string()]
    );
}
