use std::ops::Deref;

use salvo_kit::http::request::ParseError;
use salvo_kit::oapi::extract::{
    register, CookieParam, FormBody, HeaderParam, JsonBody, Parameter,
    ParameterIn, PathParam, QueryParam,
};
use salvo_kit::oapi::openapi::{ContentMap, PathItemType, RequestBody, Required};
use salvo_kit::oapi::swagger::{holds_config, served_path, SwaggerFile, Url};

#[test]
fn test_path_param_into_inner() {
    let param = PathParam::<String>("param".to_string());
    assert_eq!("param".to_string(), param.into_inner());
}

#[test]
fn test_path_param_deref() {
    let param = PathParam::<String>("param".to_string());
    assert_eq!(&"param".to_string(), param.deref())
}

#[test]
fn test_path_param_deref_mut() {
    let mut param = PathParam::<String>("param".to_string());
    assert_eq!(&mut "param".to_string(), param.deref_mut())
}

#[test]
fn test_path_param_debug() {
    let param = PathParam::<String>("param".to_string());
    assert_eq!(param.debug_string(), r#""param""#);
}

#[test]
fn test_path_param_display() {
    let param = PathParam::<String>("param".to_string());
    assert_eq!(param.display_string(), "param");
}

#[test]
fn deref_mut_changes_the_value_in_place() {
    let mut param = PathParam::<u32>(7);
    *param.deref_mut() = 9;
    assert_eq!(param.into_inner(), 9);
}

#[test]
fn named_params_keep_name_and_value() {
    let cookie = CookieParam::new("session", 5u8);
    assert_eq!(cookie.name(), "session");
    assert_eq!(*cookie.value(), 5);
    let header = HeaderParam::new("x-id", "abc".to_string());
    assert_eq!(header.name(), "x-id");
    assert_eq!(header.value(), "abc");
    assert_eq!(header.into_value(), "abc");
    let query = QueryParam::new("page", 3u32);
    assert_eq!(query.name(), "page");
    assert_eq!(*query.value(), 3);
}

#[test]
fn bodies_give_what_they_hold() {
    let form = FormBody(vec![1, 2]);
    assert_eq!(form.deref(), &vec![1, 2]);
    assert_eq!(form.into_inner(), vec![1, 2]);
    let json = JsonBody("x".to_string());
    assert_eq!(json.deref(), "x");
    assert_eq!(json.into_inner(), "x");
}

#[test]
fn request_body_new() {
    let request_body: RequestBody<String> = RequestBody::new();

    assert!(request_body.content.is_empty());
    assert_eq!(request_body.description, None);
    assert!(request_body.required.is_none());
}

#[test]
fn request_body_builder() {
    let request_body = RequestBody::new()
        .description("A sample requestBody")
        .required(Required::True)
        .content("application/json", "#/components/schemas/EmailPayload".to_string());
    assert_eq!(request_body.description.as_deref(), Some("A sample requestBody"));
    assert_eq!(request_body.required, Some(Required::True));
    assert_eq!(request_body.content.len(), 1);
    assert_eq!(
        request_body.content.get("application/json"),
        Some(&"#/components/schemas/EmailPayload".to_string())
    );
}

#[test]
fn new_request_body_is_the_default_one() {
    let new: RequestBody<u8> = RequestBody::new();
    assert_eq!(new, RequestBody::default());
    assert_eq!(ContentMap::<u8>::default(), ContentMap::new());
}

#[test]
fn contents_stand_in_the_order_of_their_media_types() {
    let body = RequestBody::new()
        .content("text/plain", 1u8)
        .content("application/json", 2)
        .content("multipart/form-data", 3)
        .content("application/xml", 4)
        .content("application/json", 5);
    let map = &body.content;
    assert_eq!(map.len(), 4);
    let walked: Vec<(&str, &u8)> = (0..map.len()).filter_map(|index| map.entry(index)).collect();
    assert_eq!(
        walked,
        vec![
            ("application/json", &5),
            ("application/xml", &4),
            ("multipart/form-data", &3),
            ("text/plain", &1),
        ]
    );
    assert_eq!(map.entry(4), None);
    let mut sorted = std::collections::BTreeMap::new();
    for (key, value) in [("b", 1), ("a", 2), ("\u{e9}", 3), ("B", 4), ("", 5), ("ab", 6), ("a", 7)] {
        sorted.insert(key.to_string(), value);
    }
    let mut map = ContentMap::new();
    for (key, value) in [("b", 1), ("a", 2), ("\u{e9}", 3), ("B", 4), ("", 5), ("ab", 6), ("a", 7)] {
        map.insert(key.to_string(), value);
    }
    let walked: Vec<(String, i32)> = (0..map.len())
        .filter_map(|index| map.entry(index))
        .map(|(key, value)| (key.to_string(), *value))
        .collect();
    assert_eq!(walked, sorted.into_iter().collect::<Vec<_>>());
}

#[test]
fn content_of_one_media_type_is_replaced() {
    let mut map: ContentMap<u8> = ContentMap::new();
    map.insert("a/b".to_string(), 1);
    map.insert("c/d".to_string(), 2);
    map.insert("a/b".to_string(), 3);
    assert_eq!(map.len(), 2);
    assert_eq!(map.get("a/b"), Some(&3));
    assert_eq!(map.get("c/d"), Some(&2));
    assert_eq!(map.get("e/f"), None);
}

#[test]
fn path_item_types_are_named_in_lower_case() {
    assert_eq!(PathItemType::Get.as_str(), "get");
    assert_eq!(PathItemType::Delete.as_str(), "delete");
    assert_eq!(PathItemType::Connect.as_str(), "connect");
    assert!(PathItemType::Get < PathItemType::Post);
}

#[test]
fn urls_keep_name_url_and_primary() {
    let url = Url::new("My Api", "/api-docs/openapi.json");
    assert_eq!(url.name(), "My Api");
    assert_eq!(url.url(), "/api-docs/openapi.json");
    assert!(!url.is_primary());
    let url = Url::with_primary("My Api", "/api-docs/openapi.json", true);
    assert!(url.is_primary());
    let url = Url::from_url("/doc.json");
    assert_eq!(url.name(), "");
    assert_eq!(url.url(), "/doc.json");
}

#[test]
fn the_root_of_the_pages_is_the_index() {
    assert_eq!(served_path(""), "index.html");
    assert_eq!(served_path("/"), "index.html");
    assert_eq!(served_path("swagger-ui.css"), "swagger-ui.css");
    assert!(holds_config("swagger-initializer.js"));
    assert!(!holds_config("index.html"));
    let file = SwaggerFile::new(vec![1, 2, 3], "text/css".to_string());
    assert_eq!(file.bytes, vec![1, 2, 3]);
    assert_eq!(file.content_type, "text/css");
}

#[test]
fn parameters_are_described_by_where_they_come_from() {
    assert_eq!(
        register(ParameterIn::Cookie, "sid"),
        Parameter {
            name: "sid".to_string(),
            parameter_in: ParameterIn::Cookie,
            description: "Get parameter `sid` from request cookie".to_string(),
            required: false,
        }
    );
    assert_eq!(register(ParameterIn::Header, "x").description, "Get parameter `x` from request headers");
    assert_eq!(register(ParameterIn::Query, "q").description, "Get parameter `q` from request url query");
    let path = register(ParameterIn::Path, "id");
    assert_eq!(path.description, "Get parameter `id` from request url path.");
    assert!(path.required);
}

#[test]
fn a_missing_parameter_is_an_error_that_names_it() {
    let taken = CookieParam::extract_with_arg("sid", Some(7u8)).ok().unwrap();
    assert_eq!(taken.name(), "sid");
    assert_eq!(*taken.value(), 7);
    assert_eq!(
        CookieParam::<u8>::extract_with_arg("sid", None).err(),
        Some(ParseError::Other("cookie parameter sid not found or convert to type failed".to_string()))
    );
    assert_eq!(
        HeaderParam::<u8>::extract_with_arg("x", None).err(),
        Some(ParseError::Other("header parameter x not found or convert to type failed".to_string()))
    );
    assert_eq!(
        QueryParam::<u8>::extract_with_arg("q", None).err(),
        Some(ParseError::Other("query parameter q not found or convert to type failed".to_string()))
    );
    assert_eq!(
        PathParam::<u8>::extract_with_arg("id", None).err(),
        Some(ParseError::Other("path parameter id not found or convert to type failed".to_string()))
    );
    assert_eq!(HeaderParam::extract_with_arg("x", Some(1u8)).ok().unwrap().into_value(), 1);
    assert_eq!(*QueryParam::extract_with_arg("q", Some(2u8)).ok().unwrap().value(), 2);
    assert_eq!(PathParam::extract_with_arg("id", Some(3u8)).ok().unwrap().into_inner(), 3);
}
