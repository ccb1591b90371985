//! What is decided about every exchange, whatever the protocol of the
//! connection it arrives on.

use vstd::prelude::*;

use crate::conn::holding::{Scheme, SocketAddr, Version};
use crate::http::{
    is_client_error, is_server_error, spec_is_client_error, spec_is_server_error, spec_media_type,
    MediaType, Method, NOT_FOUND, NO_CONTENT, OK, UNSUPPORTED_MEDIA_TYPE,
};

verus! {

/// Serves requests with a router, and catches the errors that are left
/// without a body.
///
/// The router and the catcher are the caller's: this crate carries them and
/// decides what surrounds their work.
pub struct Service<R, K> {
    /// The router of this service.
    pub router: R,
    /// The catcher of this service.
    pub catcher: Option<K>,
    /// The media types that a response may have. Empty means any.
    pub allowed_media_types: Vec<MediaType>,
}

impl<R, K> Service<R, K> {
    /// A service around `router`, without a catcher, that allows every media type.
    pub fn new(router: R) -> (service: Self)
        ensures
            service.router == router,
            service.catcher is None,
            service.allowed_media_types@.len() == 0,
    {
        Service { router, catcher: None, allowed_media_types: Vec::new() }
    }

    /// The router of this service.
    pub fn router(&self) -> (router: &R)
        ensures
            *router == self.router,
    {
        &self.router
    }

    /// Sets the catcher, which writes the page for a response that tells of
    /// an error and has no body.
    pub fn catcher(self, catcher: K) -> (service: Self)
        ensures
            service.router == self.router,
            service.catcher == Some(catcher),
            service.allowed_media_types == self.allowed_media_types,
    {
        Service {
            router: self.router,
            catcher: Some(catcher),
            allowed_media_types: self.allowed_media_types,
        }
    }

    /// Sets the media types that a response may have.
    pub fn allowed_media_types(self, allowed_media_types: Vec<MediaType>) -> (service: Self)
        ensures
            service.router == self.router,
            service.catcher == self.catcher,
            service.allowed_media_types == allowed_media_types,
    {
        Service { router: self.router, catcher: self.catcher, allowed_media_types }
    }

    /// What is decided about the exchanges of one connection, which arrived
    /// at `local_addr` from `remote_addr` under `http_scheme`.
    pub fn hyper_handler(
        &self,
        local_addr: SocketAddr,
        remote_addr: SocketAddr,
        http_scheme: Scheme,
        alt_svc_h3: Option<String>,
    ) -> (handler: HyperHandler)
        ensures
            handler.local_addr == local_addr,
            handler.remote_addr == remote_addr,
            handler.http_scheme == http_scheme,
            handler.alt_svc_h3 == alt_svc_h3,
            handler.has_catcher == self.catcher is Some,
            spec_same_media_types(handler.allowed_media_types@, self.allowed_media_types@),
    {
        HyperHandler {
            local_addr,
            remote_addr,
            http_scheme,
            has_catcher: self.catcher.is_some(),
            allowed_media_types: copy_media_types(&self.allowed_media_types),
            alt_svc_h3,
        }
    }
}

/// Whether both lists hold the same media types in the same order.
pub open spec fn spec_same_media_types(a: Seq<MediaType>, b: Seq<MediaType>) -> bool {
    &&& a.len() == b.len()
    &&& forall|i: int|
        0 <= i < a.len() ==> (#[trigger] a[i]).kind@ == b[i].kind@ && a[i].subtype@ == b[i].subtype@
}

/// A copy of `list`.
pub fn copy_media_types(list: &Vec<MediaType>) -> (copy: Vec<MediaType>)
    ensures
        spec_same_media_types(copy@, list@),
{
    let mut copy: Vec<MediaType> = Vec::new();
    let mut i: usize = 0;
    while i < list.len()
        invariant
            i <= list.len(),
            copy@.len() == i,
            forall|j: int|
                0 <= j < i ==> (#[trigger] copy@[j]).kind@ == list@[j].kind@ && copy@[j].subtype@
                    == list@[j].subtype@,
        decreases list.len() - i,
    {
        copy.push(list[i].clone());
        i += 1;
    }
    copy
}

/// The `Content-Type` header of a response.
#[derive(Debug, PartialEq, Eq)]
pub enum ContentType {
    /// There is no such header.
    Absent,
    /// There is one, and its value is no text.
    Opaque,
    /// There is one, with this value.
    Text(String),
}

/// What kind of body a response has.
#[derive(Clone, Copy, Debug, PartialEq, Eq, Structural)]
pub enum BodyKind {
    /// None has been set.
    Empty,
    /// An error that is still to be written out.
    Error,
    /// Anything else.
    Content,
}

/// What the router and the handlers have left of one exchange.
#[derive(Debug, PartialEq, Eq)]
pub struct Exchange {
    /// The method of the request.
    pub method: Method,
    /// Whether the router found handlers for the request.
    pub matched: bool,
    /// The status that the handlers have set, if any.
    pub status: Option<u16>,
    /// The `Content-Type` header of the response.
    pub content_type: ContentType,
    /// The kind of body of the response.
    pub body: BodyKind,
}

/// What is to become of one exchange.
#[derive(Clone, Copy, Debug, PartialEq, Eq, Structural)]
pub struct Verdict {
    /// The status of the response.
    pub status: u16,
    /// Whether the body is still to be written, by the catcher where there
    /// is one and by the default error page where there is none.
    pub write_error_page: bool,
    /// Whether that is the catcher's work.
    pub by_catcher: bool,
    /// Whether the response lacks a `Content-Type` that it ought to have.
    pub lacks_content_type: bool,
    /// Whether the response to a `HEAD` request carries a body.
    pub head_with_body: bool,
}

/// The status of a response before its media type is looked at: what the
/// handlers have set, `200` where they set nothing, `404` where there were none.
pub open spec fn spec_routed_status(matched: bool, status: Option<u16>) -> u16 {
    if matched {
        match status {
            Some(code) => code,
            None => OK,
        }
    } else {
        NOT_FOUND
    }
}

/// Whether a response of the media type `parsed` may be sent where only
/// `allowed` are: every type may where the list is empty, and otherwise one
/// that has the type and subtype of a member.
pub open spec fn spec_media_type_allowed(
    allowed: Seq<MediaType>,
    parsed: Option<(Seq<char>, Seq<char>)>,
) -> bool {
    allowed.len() == 0 || match parsed {
        Some((kind, subtype)) => exists|i: int|
            0 <= i < allowed.len() && (#[trigger] allowed[i]).kind@ == kind && allowed[i].subtype@
                == subtype,
        None => false,
    }
}

/// Whether the method is one of `GET`, `POST`, `PATCH` and `PUT`, whose
/// responses are expected to say what they hold.
pub open spec fn spec_expects_content(method: Seq<char>) -> bool {
    method == "GET"@ || method == "POST"@ || method == "PATCH"@ || method == "PUT"@
}

/// What is to become of an exchange on a connection whose service allows
/// `allowed`, and has a catcher or not.
pub open spec fn spec_verdict(allowed: Seq<MediaType>, has_catcher: bool, exchange: Exchange) -> Verdict {
    let routed = spec_routed_status(exchange.matched, exchange.status);
    let has_error = spec_is_client_error(routed) || spec_is_server_error(routed);
    let permitted = match exchange.content_type {
        ContentType::Absent => true,
        ContentType::Opaque => false,
        ContentType::Text(text) => spec_media_type_allowed(allowed, spec_media_type(text@)),
    };
    let write_error_page = has_error && exchange.body != BodyKind::Content;
    Verdict {
        status: if permitted {
            routed
        } else {
            UNSUPPORTED_MEDIA_TYPE
        },
        write_error_page,
        by_catcher: write_error_page && has_catcher,
        lacks_content_type: exchange.content_type is Absent && exchange.body == BodyKind::Empty
            && !has_error && routed != NO_CONTENT && spec_expects_content(exchange.method@),
        head_with_body: exchange.method@ == "HEAD"@ && exchange.body != BodyKind::Empty,
    }
}

/// Whether a response of the media type `parsed` may be sent where only
/// `allowed` are.
pub fn media_type_allowed(allowed: &Vec<MediaType>, parsed: &Option<MediaType>) -> (permitted: bool)
    ensures
        permitted == spec_media_type_allowed(
            allowed@,
            match parsed {
                Some(media) => Some((media.kind@, media.subtype@)),
                None => None,
            },
        ),
{
    if allowed.len() == 0 {
        return true;
    }
    match parsed {
        None => false,
        Some(media) => {
            let mut i: usize = 0;
            while i < allowed.len()
                invariant
                    i <= allowed.len(),
                    *parsed == Some(*media),
                    forall|j: int| 0 <= j < i ==> !(#[trigger] allowed@[j]).spec_matches(media),
                decreases allowed.len() - i,
            {
                if allowed[i].matches(media) {
                    assert(allowed@[i as int].kind@ == media.kind@ && allowed@[i as int].subtype@
                        == media.subtype@);
                    return true;
                }
                i += 1;
            }
            false
        },
    }
}

/// What is decided about the exchanges of one connection.
#[derive(Debug)]
pub struct HyperHandler {
    /// The address the connection arrived at.
    pub local_addr: SocketAddr,
    /// The address the connection came from.
    pub remote_addr: SocketAddr,
    /// The scheme under which the connection was reached.
    pub http_scheme: Scheme,
    /// Whether the service has a catcher.
    pub has_catcher: bool,
    /// The media types that a response may have. Empty means any.
    pub allowed_media_types: Vec<MediaType>,
    /// The `Alt-Svc` value that advertises HTTP/3, where the server speaks it.
    pub alt_svc_h3: Option<String>,
}

impl HyperHandler {
    /// The `Alt-Svc` value to attach to a response: the one that advertises
    /// HTTP/3, on connections of every other version, unless the response
    /// has such a header already.
    pub open spec fn spec_alt_svc(&self, version: Version, already_set: bool) -> Option<Seq<char>> {
        if version != Version::Http3 && !already_set {
            match self.alt_svc_h3 {
                Some(value) => Some(value@),
                None => None,
            }
        } else {
            None
        }
    }

    /// The `Alt-Svc` value to attach to a response on a connection of
    /// `version`, where `already_set` tells whether the response has one.
    pub fn alt_svc(&self, version: Version, already_set: bool) -> (value: Option<&str>)
        ensures
            match value {
                Some(text) => self.spec_alt_svc(version, already_set) == Some(text@),
                None => self.spec_alt_svc(version, already_set) is None,
            },
    {
        if already_set {
            return None;
        }
        match version {
            Version::Http3 => None,
            _ => match &self.alt_svc_h3 {
                Some(value) => Some(value.as_str()),
                None => None,
            },
        }
    }

    /// The scheme of a request: the one in its URI, and the connection's
    /// where the URI has none.
    pub fn request_scheme(&self, in_uri: Option<Scheme>) -> (scheme: Scheme)
        ensures
            scheme == match in_uri {
                Some(given) => given,
                None => self.http_scheme,
            },
    {
        match in_uri {
            Some(given) => given,
            None => self.http_scheme,
        }
    }

    /// Decides what is to become of an exchange once the router and the
    /// handlers are done with it.
    pub fn handle(&self, exchange: &Exchange) -> (verdict: Verdict)
        ensures
            verdict == spec_verdict(self.allowed_media_types@, self.has_catcher, *exchange),
    {
        let parsed = match &exchange.content_type {
            ContentType::Text(text) => MediaType::parse(text.as_str()),
            _ => None,
        };
        conclude(&self.allowed_media_types, self.has_catcher, exchange, &parsed)
    }
}

/// Decides what is to become of an exchange, given the media type that the
/// text of its `Content-Type` spells.
pub fn conclude(
    allowed: &Vec<MediaType>,
    has_catcher: bool,
    exchange: &Exchange,
    parsed: &Option<MediaType>,
) -> (verdict: Verdict)
    ensures
        ({
            let routed = spec_routed_status(exchange.matched, exchange.status);
            let has_error = spec_is_client_error(routed) || spec_is_server_error(routed);
            let permitted = match exchange.content_type {
                ContentType::Absent => true,
                ContentType::Opaque => false,
                ContentType::Text(_) => spec_media_type_allowed(
                    allowed@,
                    match parsed {
                        Some(media) => Some((media.kind@, media.subtype@)),
                        None => None,
                    },
                ),
            };
            let write_error_page = has_error && exchange.body != BodyKind::Content;
            verdict == (Verdict {
                status: if permitted {
                    routed
                } else {
                    UNSUPPORTED_MEDIA_TYPE
                },
                write_error_page,
                by_catcher: write_error_page && has_catcher,
                lacks_content_type: exchange.content_type is Absent && exchange.body
                    == BodyKind::Empty && !has_error && routed != NO_CONTENT && spec_expects_content(
                    exchange.method@,
                ),
                head_with_body: exchange.method@ == "HEAD"@ && exchange.body != BodyKind::Empty,
            })
        }),
{
    let routed: u16 = if exchange.matched {
        match exchange.status {
            Some(code) => code,
            None => OK,
        }
    } else {
        NOT_FOUND
    };
    let has_error = is_client_error(routed) || is_server_error(routed);
    let permitted = match &exchange.content_type {
        ContentType::Absent => true,
        ContentType::Opaque => false,
        ContentType::Text(_) => media_type_allowed(allowed, parsed),
    };
    let has_content = match exchange.body {
        BodyKind::Content => true,
        _ => false,
    };
    let is_empty = match exchange.body {
        BodyKind::Empty => true,
        _ => false,
    };
    let is_absent = match &exchange.content_type {
        ContentType::Absent => true,
        _ => false,
    };
    let expects_content = exchange.method.is("GET") || exchange.method.is("POST")
        || exchange.method.is("PATCH") || exchange.method.is("PUT");
    let write_error_page = has_error && !has_content;
    Verdict {
        status: if permitted {
            routed
        } else {
            UNSUPPORTED_MEDIA_TYPE
        },
        write_error_page,
        by_catcher: write_error_page && has_catcher,
        lacks_content_type: is_absent && is_empty && !has_error && routed != NO_CONTENT
            && expects_content,
        head_with_body: exchange.method.is("HEAD") && !is_empty,
    }
}

} // verus!
