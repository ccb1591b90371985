use salvo_kit::conn::holding::Scheme;
use salvo_kit::http::Method;
use salvo_kit::routing::filters::{
    host_part, port_part, HostFilter, MethodFilter, PortFilter, SchemeFilter,
};

#[test]
fn method_filter_admits_its_method() {
    let filter = MethodFilter::new(Method::get());
    assert_eq!(filter.0, Method::get());
    assert!(filter.filter(&Method::get()));
    assert!(!filter.filter(&Method::post()));
}

#[test]
fn scheme_filter_admits_its_scheme() {
    let filter = SchemeFilter::new(Scheme::Https);
    assert_eq!(filter.scheme, Scheme::Https);
    assert!(!filter.lack);
    assert!(filter.filter(Some(Scheme::Https)));
    assert!(!filter.filter(Some(Scheme::Http)));
    assert!(!filter.filter(None));
    let filter = filter.lack(true);
    assert!(filter.filter(None));
    assert!(!filter.filter(Some(Scheme::Http)));
}

#[test]
fn host_filter_reads_the_host_before_the_port() {
    let filter = HostFilter::new("localhost");
    assert_eq!(filter.host, "localhost");
    assert!(!filter.lack);
    assert!(filter.filter(Some("localhost")));
    assert!(filter.filter(Some("localhost:5800")));
    assert!(!filter.filter(Some("127.0.0.1:5800")));
    assert!(!filter.filter(Some("localhost:5800:1")));
    assert!(!filter.filter(None));
    assert!(filter.lack(true).filter(None));
    assert_eq!(host_part("a:b:c"), "a:b");
    assert_eq!(host_part(":80"), "");
    assert_eq!(host_part(""), "");
    assert_eq!(host_part("h\u{f6}st:1"), "h\u{f6}st");
}

#[test]
fn port_filter_reads_the_port_after_the_last_colon() {
    let filter = PortFilter::new(5800);
    assert_eq!(filter.port, 5800);
    assert!(!filter.lack);
    assert!(filter.filter(Some("localhost:5800")));
    assert!(filter.filter(Some("5800")));
    assert!(filter.filter(Some("[::1]:5800")));
    assert!(!filter.filter(Some("localhost:5801")));
    assert!(!filter.filter(Some("localhost")));
    assert!(!filter.filter(Some("localhost:")));
    assert!(!filter.filter(Some("localhost:65536")));
    assert!(!filter.filter(None));
    let lacking = filter.lack(true);
    assert!(lacking.filter(None));
    assert!(lacking.filter(Some("localhost")));
    assert!(lacking.filter(Some("localhost:99999")));
    assert!(!lacking.filter(Some("localhost:5801")));
    assert_eq!(port_part("a:b:c"), "c");
    assert_eq!(port_part("a:"), "");
    assert_eq!(port_part("abc"), "abc");
}
