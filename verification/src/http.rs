//! The few facts about HTTP messages that the rest of the crate reasons
//! about: methods, status codes, media types and the shape of a response.

use vstd::prelude::*;

use crate::text::{is_word, Named};

pub mod body;
pub mod request;

verus! {

/// Whether the byte is one that a token is made of: a letter, a digit, or
/// one of ``!#$%&'*+-.^_`|~``.
pub open spec fn spec_is_tchar(b: u8) -> bool {
    ||| b == 0x21
    ||| 0x23 <= b <= 0x27
    ||| b == 0x2A
    ||| b == 0x2B
    ||| b == 0x2D
    ||| b == 0x2E
    ||| 0x30 <= b <= 0x39
    ||| 0x41 <= b <= 0x5A
    ||| 0x5E <= b <= 0x7A
    ||| b == 0x7C
    ||| b == 0x7E
}

/// Whether the bytes are a token: at least one byte, and each of them one
/// that a token is made of.
pub open spec fn spec_is_token(bytes: Seq<u8>) -> bool {
    bytes.len() > 0 && forall|i: int| 0 <= i < bytes.len() ==> spec_is_tchar(#[trigger] bytes[i])
}

/// The lower-case form of the byte of an ASCII upper-case letter; every
/// other byte is left as it is.
pub open spec fn spec_lower_byte(b: u8) -> u8 {
    if 0x41 <= b <= 0x5A {
        (b + 32) as u8
    } else {
        b
    }
}

/// The token of the method that the bytes spell, if they spell one: the
/// bytes themselves, where they are a token. Methods keep their case.
pub open spec fn spec_method_token(bytes: Seq<u8>) -> Option<Seq<char>> {
    if spec_is_token(bytes) {
        Some(Seq::new(bytes.len(), |i: int| bytes[i] as char))
    } else {
        None
    }
}

/// The name of the header that the bytes spell, if they spell one: the
/// bytes in lower case, where they are a token of no more than 65535 bytes.
pub open spec fn spec_header_name(bytes: Seq<u8>) -> Option<Seq<char>> {
    if spec_is_token(bytes) && bytes.len() <= 65535 {
        Some(Seq::new(bytes.len(), |i: int| spec_lower_byte(bytes[i]) as char))
    } else {
        None
    }
}

/// The type and subtype of the media type that the text spells, if it spells one.
pub uninterp spec fn spec_media_type(text: Seq<char>) -> Option<(Seq<char>, Seq<char>)>;

/// Calls `http::Method::from_bytes` and hands back the token of the method
/// it made, as `Method::as_str` gives it. That function takes the bytes of
/// a token and no others, and keeps them as they are, which is what
/// [`spec_method_token`] says.
#[verifier::external_body]
fn method_token(bytes: &[u8]) -> (token: Option<String>)
    ensures
        match token {
            Some(text) => spec_method_token(bytes@) == Some(text@),
            None => spec_method_token(bytes@) is None,
        },
{
    match http::Method::from_bytes(bytes) {
        Ok(method) => Some(method.as_str().to_owned()),
        Err(_) => None,
    }
}

/// Calls `http::header::HeaderName::from_bytes` and hands back the name it
/// made, as `HeaderName::as_str` gives it. That function takes the bytes of
/// a token of no more than 65535 bytes and no others, and puts them in lower
/// case, which is what [`spec_header_name`] says.
#[verifier::external_body]
fn header_name_text(bytes: &[u8]) -> (name: Option<String>)
    ensures
        match name {
            Some(text) => spec_header_name(bytes@) == Some(text@),
            None => spec_header_name(bytes@) is None,
        },
{
    match http::header::HeaderName::from_bytes(bytes) {
        Ok(name) => Some(name.as_str().to_owned()),
        Err(_) => None,
    }
}

/// Parses the text as a `mime::Mime` and hands back its type and subtype, as
/// `Mime::type_` and `Mime::subtype` give them. The answer depends on the
/// text alone and is what [`spec_media_type`] names.
#[verifier::external_body]
fn media_type_parts(text: &str) -> (parts: Option<(String, String)>)
    ensures
        match parts {
            Some(pair) => spec_media_type(text@) == Some((pair.0@, pair.1@)),
            None => spec_media_type(text@) is None,
        },
{
    match text.parse::<mime::Mime>() {
        Ok(parsed) => Some((parsed.type_().as_str().to_owned(), parsed.subtype().as_str().to_owned())),
        Err(_) => None,
    }
}

/// Whether the byte is one that a token is made of.
pub fn is_tchar(b: u8) -> (token: bool)
    ensures
        token == spec_is_tchar(b),
{
    b == 0x21 || (0x23 <= b && b <= 0x27) || b == 0x2A || b == 0x2B || b == 0x2D || b == 0x2E || (
    0x30 <= b && b <= 0x39) || (0x41 <= b && b <= 0x5A) || (0x5E <= b && b <= 0x7A) || b == 0x7C
        || b == 0x7E
}

/// The bytes do not spell an HTTP method.
#[derive(Clone, Copy, Debug, PartialEq, Eq, Structural)]
pub struct InvalidMethod;

/// An HTTP request method, held by its token.
#[derive(Debug, PartialEq, Eq)]
pub struct Method {
    token: String,
}

impl View for Method {
    type V = Seq<char>;

    closed spec fn view(&self) -> Seq<char> {
        self.token@
    }
}

impl Named for Method {
    open spec fn spec_name(&self) -> Seq<char> {
        self@
    }

    fn name(&self) -> (name: &str) {
        self.as_str()
    }
}

impl Clone for Method {
    fn clone(&self) -> (copy: Self)
        ensures
            copy@ == self@,
    {
        Method { token: self.token.clone() }
    }
}

impl Method {
    /// The method that the bytes spell.
    pub fn from_bytes(bytes: &[u8]) -> (parsed: Result<Method, InvalidMethod>)
        ensures
            match parsed {
                Ok(method) => spec_method_token(bytes@) == Some(method@),
                Err(_) => spec_method_token(bytes@) is None,
            },
    {
        match method_token(bytes) {
            Some(token) => Ok(Method { token }),
            None => Err(InvalidMethod),
        }
    }

    /// `GET`
    pub fn get() -> (method: Method)
        ensures
            method@ == "GET"@,
    {
        Method { token: "GET".to_owned() }
    }

    /// `POST`
    pub fn post() -> (method: Method)
        ensures
            method@ == "POST"@,
    {
        Method { token: "POST".to_owned() }
    }

    /// `PUT`
    pub fn put() -> (method: Method)
        ensures
            method@ == "PUT"@,
    {
        Method { token: "PUT".to_owned() }
    }

    /// `DELETE`
    pub fn delete() -> (method: Method)
        ensures
            method@ == "DELETE"@,
    {
        Method { token: "DELETE".to_owned() }
    }

    /// `HEAD`
    pub fn head() -> (method: Method)
        ensures
            method@ == "HEAD"@,
    {
        Method { token: "HEAD".to_owned() }
    }

    /// `OPTIONS`
    pub fn options() -> (method: Method)
        ensures
            method@ == "OPTIONS"@,
    {
        Method { token: "OPTIONS".to_owned() }
    }

    /// `CONNECT`
    pub fn connect() -> (method: Method)
        ensures
            method@ == "CONNECT"@,
    {
        Method { token: "CONNECT".to_owned() }
    }

    /// `PATCH`
    pub fn patch() -> (method: Method)
        ensures
            method@ == "PATCH"@,
    {
        Method { token: "PATCH".to_owned() }
    }

    /// `TRACE`
    pub fn trace() -> (method: Method)
        ensures
            method@ == "TRACE"@,
    {
        Method { token: "TRACE".to_owned() }
    }

    /// The token of the method.
    pub fn as_str(&self) -> (token: &str)
        ensures
            token@ == self@,
    {
        self.token.as_str()
    }

    /// Whether this is the method with the token `token`.
    pub fn is(&self, token: &str) -> (same: bool)
        ensures
            same == (self@ == token@),
    {
        is_word(self.token.as_str(), token)
    }

    /// Whether both are the same method.
    pub fn same_as(&self, other: &Method) -> (same: bool)
        ensures
            same == (self@ == other@),
    {
        is_word(self.token.as_str(), other.token.as_str())
    }
}

/// The status `200 OK`.
pub const OK: u16 = 200;

/// The status `204 No Content`.
pub const NO_CONTENT: u16 = 204;

/// The status `403 Forbidden`.
pub const FORBIDDEN: u16 = 403;

/// The status `404 Not Found`.
pub const NOT_FOUND: u16 = 404;

/// The status `415 Unsupported Media Type`.
pub const UNSUPPORTED_MEDIA_TYPE: u16 = 415;

/// The status `500 Internal Server Error`.
pub const INTERNAL_SERVER_ERROR: u16 = 500;

/// Whether the status tells of a client's error: it lies in 400 to 499.
pub open spec fn spec_is_client_error(status: u16) -> bool {
    400 <= status < 500
}

/// Whether the status tells of a server's error: it lies in 500 to 599.
pub open spec fn spec_is_server_error(status: u16) -> bool {
    500 <= status < 600
}

/// Whether the status tells of a client's error.
pub fn is_client_error(status: u16) -> (error: bool)
    ensures
        error == spec_is_client_error(status),
{
    400 <= status && status < 500
}

/// Whether the status tells of a server's error.
pub fn is_server_error(status: u16) -> (error: bool)
    ensures
        error == spec_is_server_error(status),
{
    500 <= status && status < 600
}

/// A media type, by its type and subtype, both in lower case.
#[derive(Debug, PartialEq, Eq)]
pub struct MediaType {
    /// The type, as in `text`.
    pub kind: String,
    /// The subtype, as in `plain`.
    pub subtype: String,
}

impl Clone for MediaType {
    fn clone(&self) -> (copy: Self)
        ensures
            copy.kind@ == self.kind@,
            copy.subtype@ == self.subtype@,
    {
        MediaType { kind: self.kind.clone(), subtype: self.subtype.clone() }
    }
}

impl MediaType {
    /// The media type with the given type and subtype.
    pub fn new(kind: &str, subtype: &str) -> (media: MediaType)
        ensures
            media.kind@ == kind@,
            media.subtype@ == subtype@,
    {
        MediaType { kind: kind.to_owned(), subtype: subtype.to_owned() }
    }

    /// The media type that the text spells, parameters left aside.
    pub fn parse(text: &str) -> (parsed: Option<MediaType>)
        ensures
            match parsed {
                Some(media) => spec_media_type(text@) == Some((media.kind@, media.subtype@)),
                None => spec_media_type(text@) is None,
            },
    {
        match media_type_parts(text) {
            Some((kind, subtype)) => Some(MediaType { kind, subtype }),
            None => None,
        }
    }

    /// Whether both have the same type and the same subtype.
    pub open spec fn spec_matches(&self, other: &MediaType) -> bool {
        self.kind@ == other.kind@ && self.subtype@ == other.subtype@
    }

    /// Whether both have the same type and the same subtype.
    pub fn matches(&self, other: &MediaType) -> (same: bool)
        ensures
            same == self.spec_matches(other),
    {
        is_word(self.kind.as_str(), other.kind.as_str()) && is_word(
            self.subtype.as_str(),
            other.subtype.as_str(),
        )
    }
}

/// The bytes do not spell the name of a header.
#[derive(Clone, Copy, Debug, PartialEq, Eq, Structural)]
pub struct InvalidHeaderName;

/// The name of a header, in lower case.
#[derive(Debug, PartialEq, Eq)]
pub struct HeaderName {
    name: String,
}

impl View for HeaderName {
    type V = Seq<char>;

    closed spec fn view(&self) -> Seq<char> {
        self.name@
    }
}

impl Named for HeaderName {
    open spec fn spec_name(&self) -> Seq<char> {
        self@
    }

    fn name(&self) -> (name: &str) {
        self.as_str()
    }
}

impl Clone for HeaderName {
    fn clone(&self) -> (copy: Self)
        ensures
            copy@ == self@,
    {
        HeaderName { name: self.name.clone() }
    }
}

impl HeaderName {
    /// The name that the bytes spell.
    pub fn from_bytes(bytes: &[u8]) -> (parsed: Result<HeaderName, InvalidHeaderName>)
        ensures
            match parsed {
                Ok(name) => spec_header_name(bytes@) == Some(name@),
                Err(_) => spec_header_name(bytes@) is None,
            },
    {
        match header_name_text(bytes) {
            Some(name) => Ok(HeaderName { name }),
            None => Err(InvalidHeaderName),
        }
    }

    /// The name, in lower case.
    pub fn as_str(&self) -> (name: &str)
        ensures
            name@ == self@,
    {
        self.name.as_str()
    }

    /// Whether both are the same name.
    pub fn same_as(&self, other: &HeaderName) -> (same: bool)
        ensures
            same == (self@ == other@),
    {
        is_word(self.name.as_str(), other.name.as_str())
    }
}

/// The value of a header that may be there or not, and may be text or not.
#[derive(Debug, PartialEq, Eq)]
pub enum HeaderText {
    /// There is no such header.
    Absent,
    /// There is one, and its value is no text.
    Opaque,
    /// There is one, with this value.
    Text(String),
}

/// The greatest size that a body may have before it is read as a whole,
/// where nothing else is said: 64 KiB.
pub const DEFAULT_SECURE_MAX_SIZE: usize = 65536;

/// The greatest size that a body may have before it is read as a whole.
///
/// There is one such limit for a whole server. It is passed to whatever
/// reads bodies, and changed only by [`set_secure_max_size`].
#[derive(Clone, Copy, Debug, PartialEq, Eq, Structural)]
pub struct SecureMaxSize {
    size: usize,
}

impl View for SecureMaxSize {
    type V = usize;

    closed spec fn view(&self) -> usize {
        self.size
    }
}

impl SecureMaxSize {
    /// The limit as it stands before anything is set: 64 KiB.
    pub fn new() -> (limit: Self)
        ensures
            limit@ == DEFAULT_SECURE_MAX_SIZE,
    {
        SecureMaxSize { size: DEFAULT_SECURE_MAX_SIZE }
    }

    /// Whether a body of `size` bytes is within the limit.
    pub fn admits(&self, size: usize) -> (admitted: bool)
        ensures
            admitted == (size <= self@),
    {
        size <= self.size
    }
}

/// The greatest size that a body may have.
pub fn secure_max_size(limit: &SecureMaxSize) -> (size: usize)
    ensures
        size == limit@,
{
    limit.size
}

/// Sets the greatest size that a body may have.
pub fn set_secure_max_size(limit: &mut SecureMaxSize, size: usize)
    ensures
        final(limit)@ == size,
{
    limit.size = size;
}

} // verus!
