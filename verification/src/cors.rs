//! Cross-origin resource sharing: which requests of another origin are
//! answered, and with which headers.

use std::time::Duration;
use vstd::prelude::*;

use crate::http::{
    spec_header_name, spec_method_token, HeaderName, HeaderText, Method, FORBIDDEN,
};
use crate::text::{
    decimal, is_word, join, spec_decimal, spec_join, spec_names, spec_split, spec_views,
    spec_without_repeats, split_char, without_repeats,
};

verus! {

/// Stands for every value: the wildcard `*`.
#[derive(Clone, Copy, Debug, PartialEq, Eq, Structural)]
pub struct Any;

/// Which request headers are allowed.
#[derive(Debug, PartialEq, Eq)]
pub enum AllowHeaders {
    /// The headers of the list.
    List(Vec<HeaderName>),
    /// Every header.
    Any,
    /// Whatever headers the request asks for.
    MirrorRequest,
}

/// Which request methods are allowed.
#[derive(Debug, PartialEq, Eq)]
pub enum AllowMethods {
    /// The methods of the list.
    List(Vec<Method>),
    /// Every method.
    Any,
    /// Whatever method the request asks for.
    MirrorRequest,
}

/// Which origins are allowed.
#[derive(Debug, PartialEq, Eq)]
pub enum AllowOrigin {
    /// The origins of the list.
    List(Vec<String>),
    /// Every origin.
    Any,
    /// Whatever origin the request comes from.
    MirrorRequest,
}

/// Which response headers are exposed.
#[derive(Debug, PartialEq, Eq)]
pub enum ExposeHeaders {
    /// The headers of the list.
    List(Vec<HeaderName>),
    /// Every header.
    Any,
}

/// The whole seconds of a span of time, as `Duration::as_secs` counts them.
pub uninterp spec fn spec_whole_seconds(span: Duration) -> u64;

/// `Duration::as_secs`: the number of whole seconds in the span. It
/// depends on the span alone and is what [`spec_whole_seconds`] names.
pub assume_specification[ Duration::as_secs ](span: &Duration) -> (seconds: u64)
    ensures
        seconds == spec_whole_seconds(*span),
;

/// A number of seconds.
pub trait Seconds {
    /// The number of seconds, as mathematics.
    spec fn spec_seconds(&self) -> u64;

    /// The number of seconds.
    fn seconds(self) -> (seconds: u64)
        ensures
            seconds == self.spec_seconds(),
    ;
}

impl Seconds for u32 {
    open spec fn spec_seconds(&self) -> u64 {
        *self as u64
    }

    fn seconds(self) -> (seconds: u64) {
        self as u64
    }
}

impl Seconds for Duration {
    open spec fn spec_seconds(&self) -> u64 {
        spec_whole_seconds(*self)
    }

    fn seconds(self) -> (seconds: u64) {
        self.as_secs()
    }
}

impl Seconds for u64 {
    open spec fn spec_seconds(&self) -> u64 {
        *self
    }

    fn seconds(self) -> (seconds: u64) {
        self
    }
}

/// The names of the three request headers that take part in a preflight
/// request. A response that depends on them says so in `Vary`.
pub fn preflight_request_headers() -> (names: Vec<&'static str>)
    ensures
        names@.len() == 3,
        names@[0]@ == "origin"@,
        names@[1]@ == "access-control-request-method"@,
        names@[2]@ == "access-control-request-headers"@,
{
    let mut names: Vec<&'static str> = Vec::new();
    names.push("origin");
    names.push("access-control-request-method");
    names.push("access-control-request-headers");
    names
}

/// The values in a row with commas between them, or nothing where there
/// are no values.
pub fn separated_by_commas(values: &Vec<String>) -> (joined: Option<String>)
    ensures
        match joined {
            Some(text) => values@.len() > 0 && text@ == spec_join(spec_views(values@), ","@),
            None => values@.len() == 0,
        },
{
    if values.len() == 0 {
        None
    } else {
        Some(join(values, ","))
    }
}

/// Collects the settings of a [`Cors`].
#[derive(Debug, PartialEq, Eq)]
pub struct CorsBuilder {
    /// Whether credentials are allowed.
    pub allow_credentials: bool,
    /// Which request headers are allowed.
    pub allow_headers: AllowHeaders,
    /// Which request methods are allowed.
    pub allow_methods: AllowMethods,
    /// Which origins are allowed.
    pub allow_origin: AllowOrigin,
    /// Which response headers are exposed.
    pub expose_headers: ExposeHeaders,
    /// For how many seconds the answer to a preflight request may be kept.
    pub max_age: Option<u64>,
}

/// `first` followed by `second`.
fn concat_names(first: Vec<HeaderName>, second: Vec<HeaderName>) -> (all: Vec<HeaderName>)
    ensures
        all@ == first@ + second@,
{
    let mut all = first;
    let mut rest = second;
    all.append(&mut rest);
    all
}

/// `first` followed by `second`.
fn concat_texts(first: Vec<String>, second: Vec<String>) -> (all: Vec<String>)
    ensures
        all@ == first@ + second@,
{
    let mut all = first;
    let mut rest = second;
    all.append(&mut rest);
    all
}

impl CorsBuilder {
    /// The strictest settings: nothing is allowed and nothing is exposed.
    pub fn new() -> (builder: Self)
        ensures
            !builder.allow_credentials,
            builder.allow_headers matches AllowHeaders::List(list) && list@.len() == 0,
            builder.allow_methods matches AllowMethods::List(list) && list@.len() == 0,
            builder.allow_origin matches AllowOrigin::List(list) && list@.len() == 0,
            builder.expose_headers matches ExposeHeaders::List(list) && list@.len() == 0,
            builder.max_age is None,
    {
        CorsBuilder {
            allow_credentials: false,
            allow_headers: AllowHeaders::List(Vec::new()),
            allow_methods: AllowMethods::List(Vec::new()),
            allow_origin: AllowOrigin::List(Vec::new()),
            expose_headers: ExposeHeaders::List(Vec::new()),
            max_age: None,
        }
    }

    /// Permissive settings: every header, method and origin is allowed and
    /// every header is exposed. Credentials are not allowed.
    pub fn permissive() -> (builder: Self)
        ensures
            !builder.allow_credentials,
            builder.allow_headers is Any,
            builder.allow_methods is Any,
            builder.allow_origin is Any,
            builder.expose_headers is Any,
            builder.max_age is None,
    {
        Self::new().allow_headers(AllowHeaders::Any).allow_methods(
            AllowMethods::Any,
        ).allow_any_origin().expose_all_headers(Any)
    }

    /// Very permissive settings: credentials are allowed, and the headers,
    /// the method and the origin that a request asks for are sent back as
    /// allowed. No header is exposed.
    pub fn very_permissive() -> (builder: Self)
        ensures
            builder.allow_credentials,
            builder.allow_headers is MirrorRequest,
            builder.allow_methods is MirrorRequest,
            builder.allow_origin is MirrorRequest,
            builder.expose_headers matches ExposeHeaders::List(list) && list@.len() == 0,
            builder.max_age is None,
    {
        let builder = Self::new().allow_credentials(true).allow_headers(
            AllowHeaders::MirrorRequest,
        ).allow_methods(AllowMethods::MirrorRequest);
        CorsBuilder {
            allow_credentials: builder.allow_credentials,
            allow_headers: builder.allow_headers,
            allow_methods: builder.allow_methods,
            allow_origin: AllowOrigin::MirrorRequest,
            expose_headers: builder.expose_headers,
            max_age: builder.max_age,
        }
    }

    /// Sets whether credentials are allowed.
    pub fn allow_credentials(self, allow_credentials: bool) -> (builder: Self)
        ensures
            builder.allow_credentials == allow_credentials,
            builder.allow_headers == self.allow_headers,
            builder.allow_methods == self.allow_methods,
            builder.allow_origin == self.allow_origin,
            builder.expose_headers == self.expose_headers,
            builder.max_age == self.max_age,
    {
        let mut builder = self;
        builder.allow_credentials = allow_credentials;
        builder
    }

    /// Sets which request headers are allowed.
    pub fn allow_headers(self, headers: AllowHeaders) -> (builder: Self)
        ensures
            builder.allow_headers == headers,
            builder.allow_credentials == self.allow_credentials,
            builder.allow_methods == self.allow_methods,
            builder.allow_origin == self.allow_origin,
            builder.expose_headers == self.expose_headers,
            builder.max_age == self.max_age,
    {
        let mut builder = self;
        builder.allow_headers = headers;
        builder
    }

    /// Sets for how long the answer to a preflight request may be kept.
    pub fn max_age<S: Seconds>(self, seconds: S) -> (builder: Self)
        ensures
            builder.max_age == Some(seconds.spec_seconds()),
            builder.allow_credentials == self.allow_credentials,
            builder.allow_headers == self.allow_headers,
            builder.allow_methods == self.allow_methods,
            builder.allow_origin == self.allow_origin,
            builder.expose_headers == self.expose_headers,
    {
        let mut builder = self;
        builder.max_age = Some(seconds.seconds());
        builder
    }

    /// Sets which request methods are allowed.
    pub fn allow_methods(self, methods: AllowMethods) -> (builder: Self)
        ensures
            builder.allow_methods == methods,
            builder.allow_credentials == self.allow_credentials,
            builder.allow_headers == self.allow_headers,
            builder.allow_origin == self.allow_origin,
            builder.expose_headers == self.expose_headers,
            builder.max_age == self.max_age,
    {
        let mut builder = self;
        builder.allow_methods = methods;
        builder
    }

    /// The headers that are exposed once `headers` are added to what
    /// `current` exposes: a list grows, and a wildcard gives way to the list.
    pub open spec fn spec_exposed(current: ExposeHeaders, headers: Seq<HeaderName>) -> Seq<
        HeaderName,
    > {
        match current {
            ExposeHeaders::List(list) => list@ + headers,
            ExposeHeaders::Any => headers,
        }
    }

    /// Adds one header to those that are exposed.
    pub fn expose_header(self, header: HeaderName) -> (builder: Self)
        ensures
            builder.expose_headers matches ExposeHeaders::List(list) && list@ == Self::spec_exposed(
                self.expose_headers,
                seq![header],
            ),
            builder.allow_credentials == self.allow_credentials,
            builder.allow_headers == self.allow_headers,
            builder.allow_methods == self.allow_methods,
            builder.allow_origin == self.allow_origin,
            builder.max_age == self.max_age,
    {
        let mut one: Vec<HeaderName> = Vec::new();
        one.push(header);
        assert(one@ =~= seq![header]);
        self.expose_headers(one)
    }

    /// Adds headers to those that are exposed.
    pub fn expose_headers(self, headers: Vec<HeaderName>) -> (builder: Self)
        ensures
            builder.expose_headers matches ExposeHeaders::List(list) && list@ == Self::spec_exposed(
                self.expose_headers,
                headers@,
            ),
            builder.allow_credentials == self.allow_credentials,
            builder.allow_headers == self.allow_headers,
            builder.allow_methods == self.allow_methods,
            builder.allow_origin == self.allow_origin,
            builder.max_age == self.max_age,
    {
        let exposed = match self.expose_headers {
            ExposeHeaders::List(list) => concat_names(list, headers),
            ExposeHeaders::Any => headers,
        };
        CorsBuilder {
            allow_credentials: self.allow_credentials,
            allow_headers: self.allow_headers,
            allow_methods: self.allow_methods,
            allow_origin: self.allow_origin,
            expose_headers: ExposeHeaders::List(exposed),
            max_age: self.max_age,
        }
    }

    /// Exposes every header.
    pub fn expose_all_headers(self, any: Any) -> (builder: Self)
        ensures
            builder.expose_headers is Any,
            builder.allow_credentials == self.allow_credentials,
            builder.allow_headers == self.allow_headers,
            builder.allow_methods == self.allow_methods,
            builder.allow_origin == self.allow_origin,
            builder.max_age == self.max_age,
    {
        let mut builder = self;
        builder.expose_headers = ExposeHeaders::Any;
        builder
    }

    /// Allows every origin.
    pub fn allow_any_origin(self) -> (builder: Self)
        ensures
            builder.allow_origin is Any,
            builder.allow_credentials == self.allow_credentials,
            builder.allow_headers == self.allow_headers,
            builder.allow_methods == self.allow_methods,
            builder.expose_headers == self.expose_headers,
            builder.max_age == self.max_age,
    {
        let mut builder = self;
        builder.allow_origin = AllowOrigin::Any;
        builder
    }

    /// The origins that are allowed once `origins` are added to what
    /// `current` allows: a list grows, and anything else gives way to the list.
    pub open spec fn spec_allowed_origins(current: AllowOrigin, origins: Seq<String>) -> Seq<
        String,
    > {
        match current {
            AllowOrigin::List(list) => list@ + origins,
            _ => origins,
        }
    }

    /// Adds one origin to those that are allowed.
    pub fn allow_origin(self, origin: &str) -> (builder: Self)
        ensures
            builder.allow_origin matches AllowOrigin::List(list) && spec_views(list@)
                == spec_views(Self::spec_allowed_origins(self.allow_origin, Seq::empty())).push(
                origin@,
            ),
            builder.allow_credentials == self.allow_credentials,
            builder.allow_headers == self.allow_headers,
            builder.allow_methods == self.allow_methods,
            builder.expose_headers == self.expose_headers,
            builder.max_age == self.max_age,
    {
        let mut one: Vec<String> = Vec::new();
        one.push(origin.to_owned());
        let ghost before = Self::spec_allowed_origins(self.allow_origin, Seq::empty());
        let ghost added = one@;
        let builder = self.allow_origins(one);
        proof {
            let after = Self::spec_allowed_origins(self.allow_origin, added);
            assert(after =~= before + added);
            assert(spec_views(after) =~= spec_views(before).push(origin@));
        }
        builder
    }

    /// Adds origins to those that are allowed.
    pub fn allow_origins(self, origins: Vec<String>) -> (builder: Self)
        ensures
            builder.allow_origin matches AllowOrigin::List(list) && list@
                == Self::spec_allowed_origins(self.allow_origin, origins@),
            builder.allow_credentials == self.allow_credentials,
            builder.allow_headers == self.allow_headers,
            builder.allow_methods == self.allow_methods,
            builder.expose_headers == self.expose_headers,
            builder.max_age == self.max_age,
    {
        let allowed = match self.allow_origin {
            AllowOrigin::List(list) => concat_texts(list, origins),
            _ => origins,
        };
        CorsBuilder {
            allow_credentials: self.allow_credentials,
            allow_headers: self.allow_headers,
            allow_methods: self.allow_methods,
            allow_origin: AllowOrigin::List(allowed),
            expose_headers: self.expose_headers,
            max_age: self.max_age,
        }
    }
}

/// Why a request of another origin is refused.
#[derive(Clone, Copy, Debug, PartialEq, Eq, Structural)]
#[non_exhaustive]
pub enum Forbidden {
    /// Its origin is not allowed.
    Origin,
    /// The method it asks for is not allowed.
    Method,
    /// A header it asks for is not allowed.
    Header,
}

impl Forbidden {
    /// The refusal in words.
    pub fn message(&self) -> (message: &'static str)
        ensures
            message@ == match self {
                Forbidden::Origin => "CORS request forbidden: origin not allowed"@,
                Forbidden::Method => "CORS request forbidden: request-method not allowed"@,
                Forbidden::Header => "CORS request forbidden: header not allowed"@,
            },
    {
        match self {
            Forbidden::Origin => "CORS request forbidden: origin not allowed",
            Forbidden::Method => "CORS request forbidden: request-method not allowed",
            Forbidden::Header => "CORS request forbidden: header not allowed",
        }
    }
}

/// What a request has turned out to be.
#[derive(Clone, Copy, Debug, PartialEq, Eq, Structural)]
#[non_exhaustive]
pub enum Validated {
    /// A preflight request that is allowed.
    Preflight,
    /// A request of another origin that is allowed.
    Simple,
    /// No request of another origin.
    NotCors,
}

/// Whether `origin` is one that `rule` allows.
pub open spec fn spec_origin_allowed(rule: AllowOrigin, origin: Seq<char>) -> bool {
    match rule {
        AllowOrigin::List(list) => exists|i: int| 0 <= i < list@.len() && (#[trigger] list@[i])@ == origin,
        _ => true,
    }
}

/// Whether the method whose token is `token` is one that `rule` allows.
/// Bytes that spell no method are never allowed.
pub open spec fn spec_method_allowed(rule: AllowMethods, token: Option<Seq<char>>) -> bool {
    match token {
        Some(method) => match rule {
            AllowMethods::List(list) => exists|i: int|
                0 <= i < list@.len() && (#[trigger] list@[i])@ == method,
            _ => true,
        },
        None => false,
    }
}

/// Whether the header whose name is `name` is one that `rule` allows. Text
/// that spells no header name is never allowed.
pub open spec fn spec_header_allowed(rule: AllowHeaders, name: Option<Seq<char>>) -> bool {
    match name {
        Some(header) => match rule {
            AllowHeaders::List(list) => exists|i: int|
                0 <= i < list@.len() && (#[trigger] list@[i])@ == header,
            _ => true,
        },
        None => false,
    }
}

/// Whether every one of the `pieces` spells a header that `rule` allows.
pub open spec fn spec_headers_allowed(rule: AllowHeaders, pieces: Seq<Seq<char>>) -> bool {
    forall|i: int|
        0 <= i < pieces.len() ==> spec_header_allowed(
            rule,
            spec_header_name(vstd::utf8::encode_utf8(#[trigger] pieces[i])),
        )
}

/// What a request with these headers turns out to be.
///
/// Without `Origin` it is no request of another origin. With it, the origin
/// has to be allowed; a request with the method `OPTIONS` is a preflight
/// request, which moreover has to ask for a method that is allowed and, if
/// it asks for headers, for headers that are all allowed.
pub open spec fn spec_check_request(
    allow_origin: AllowOrigin,
    allow_methods: AllowMethods,
    allow_headers: AllowHeaders,
    method: Seq<char>,
    origin: Option<Seq<char>>,
    request_method: Option<Seq<u8>>,
    request_headers: HeaderText,
) -> Result<Validated, Forbidden> {
    match origin {
        None => Ok(Validated::NotCors),
        Some(from) => if !spec_origin_allowed(allow_origin, from) {
            Err(Forbidden::Origin)
        } else if method != "OPTIONS"@ {
            Ok(Validated::Simple)
        } else if !(request_method matches Some(bytes) && spec_method_allowed(
            allow_methods,
            spec_method_token(bytes),
        )) {
            Err(Forbidden::Method)
        } else {
            match request_headers {
                HeaderText::Absent => Ok(Validated::Preflight),
                HeaderText::Opaque => Err(Forbidden::Header),
                HeaderText::Text(value) => if spec_headers_allowed(
                    allow_headers,
                    spec_split(value@, ','),
                ) {
                    Ok(Validated::Preflight)
                } else {
                    Err(Forbidden::Header)
                },
            }
        },
    }
}

/// The value of a header that lists `names`, with commas between them.
pub open spec fn spec_names_value(names: Seq<HeaderName>) -> Seq<char> {
    spec_join(Seq::new(names.len(), |i: int| names[i]@), ","@)
}

/// The value of a header that lists `methods`, with commas between them.
pub open spec fn spec_methods_value(methods: Seq<Method>) -> Seq<char> {
    spec_join(Seq::new(methods.len(), |i: int| methods[i]@), ","@)
}

/// The value of a header that lists `names`, with commas between them.
pub fn names_value(names: &Vec<HeaderName>) -> (value: String)
    ensures
        value@ == spec_names_value(names@),
{
    let mut texts: Vec<String> = Vec::new();
    let mut i: usize = 0;
    while i < names.len()
        invariant
            i <= names.len(),
            texts@.len() == i,
            forall|j: int| 0 <= j < i ==> (#[trigger] texts@[j])@ == names@[j]@,
        decreases names.len() - i,
    {
        texts.push(names[i].as_str().to_owned());
        i += 1;
    }
    assert(spec_views(texts@) =~= Seq::new(names@.len(), |i: int| names@[i]@));
    join(&texts, ",")
}

/// The value of a header that lists `methods`, with commas between them.
pub fn methods_value(methods: &Vec<Method>) -> (value: String)
    ensures
        value@ == spec_methods_value(methods@),
{
    let mut texts: Vec<String> = Vec::new();
    let mut i: usize = 0;
    while i < methods.len()
        invariant
            i <= methods.len(),
            texts@.len() == i,
            forall|j: int| 0 <= j < i ==> (#[trigger] texts@[j])@ == methods@[j]@,
        decreases methods.len() - i,
    {
        texts.push(methods[i].as_str().to_owned());
        i += 1;
    }
    assert(spec_views(texts@) =~= Seq::new(methods@.len(), |i: int| methods@[i]@));
    join(&texts, ",")
}

/// Answers the requests of other origins by the settings it was built with.
#[derive(Debug, PartialEq, Eq)]
pub struct Cors {
    credentials: bool,
    allow_headers: AllowHeaders,
    allow_methods: AllowMethods,
    allow_origin: AllowOrigin,
    max_age: Option<u64>,
    allowed_headers_header: Option<String>,
    expose_headers_header: Option<String>,
    methods_header: Option<String>,
}

/// Whether `kept` is the rule `given` with each header of a list kept once.
pub open spec fn spec_headers_once(given: AllowHeaders, kept: AllowHeaders) -> bool {
    match (given, kept) {
        (AllowHeaders::List(all), AllowHeaders::List(once)) => spec_names(once@)
            == spec_without_repeats(spec_names(all@)),
        (AllowHeaders::Any, AllowHeaders::Any) => true,
        (AllowHeaders::MirrorRequest, AllowHeaders::MirrorRequest) => true,
        _ => false,
    }
}

/// Whether `kept` is the rule `given` with each method of a list kept once.
pub open spec fn spec_methods_once(given: AllowMethods, kept: AllowMethods) -> bool {
    match (given, kept) {
        (AllowMethods::List(all), AllowMethods::List(once)) => spec_names(once@)
            == spec_without_repeats(spec_names(all@)),
        (AllowMethods::Any, AllowMethods::Any) => true,
        (AllowMethods::MirrorRequest, AllowMethods::MirrorRequest) => true,
        _ => false,
    }
}

/// Whether `kept` is the rule `given` with each origin of a list kept once.
pub open spec fn spec_origins_once(given: AllowOrigin, kept: AllowOrigin) -> bool {
    match (given, kept) {
        (AllowOrigin::List(all), AllowOrigin::List(once)) => spec_names(once@)
            == spec_without_repeats(spec_names(all@)),
        (AllowOrigin::Any, AllowOrigin::Any) => true,
        (AllowOrigin::MirrorRequest, AllowOrigin::MirrorRequest) => true,
        _ => false,
    }
}

impl CorsBuilder {
    /// Builds the [`Cors`] of these settings. The lists become sets: what
    /// was named more than once is kept where it was named first. The
    /// values of the headers are made ready: a list is written out with
    /// commas, a wildcard is `*`, and what mirrors the request is left to be
    /// taken from it. An empty list of exposed headers makes no header.
    pub fn build(self) -> (cors: Cors)
        ensures
            cors.spec_credentials() == self.allow_credentials,
            spec_headers_once(self.allow_headers, cors.spec_allow_headers()),
            spec_methods_once(self.allow_methods, cors.spec_allow_methods()),
            spec_origins_once(self.allow_origin, cors.spec_allow_origin()),
            cors.spec_max_age() == self.max_age,
            cors.spec_allowed_headers_header() == match self.allow_headers {
                AllowHeaders::List(list) => Some(
                    spec_join(spec_without_repeats(spec_names(list@)), ","@),
                ),
                AllowHeaders::Any => Some("*"@),
                AllowHeaders::MirrorRequest => None,
            },
            cors.spec_methods_header() == match self.allow_methods {
                AllowMethods::List(list) => Some(
                    spec_join(spec_without_repeats(spec_names(list@)), ","@),
                ),
                AllowMethods::Any => Some("*"@),
                AllowMethods::MirrorRequest => None,
            },
            cors.spec_expose_headers_header() == match self.expose_headers {
                ExposeHeaders::List(list) => if list@.len() == 0 {
                    None
                } else {
                    Some(spec_join(spec_without_repeats(spec_names(list@)), ","@))
                },
                ExposeHeaders::Any => Some("*"@),
            },
    {
        let (allow_headers, allowed_headers_header) = match self.allow_headers {
            AllowHeaders::List(list) => {
                let once = without_repeats(list);
                let value = names_value(&once);
                assert(Seq::new(once@.len(), |i: int| once@[i]@) =~= spec_names(once@));
                (AllowHeaders::List(once), Some(value))
            },
            AllowHeaders::Any => (AllowHeaders::Any, Some("*".to_owned())),
            AllowHeaders::MirrorRequest => (AllowHeaders::MirrorRequest, None),
        };
        let (allow_methods, methods_header) = match self.allow_methods {
            AllowMethods::List(list) => {
                let once = without_repeats(list);
                let value = methods_value(&once);
                assert(Seq::new(once@.len(), |i: int| once@[i]@) =~= spec_names(once@));
                (AllowMethods::List(once), Some(value))
            },
            AllowMethods::Any => (AllowMethods::Any, Some("*".to_owned())),
            AllowMethods::MirrorRequest => (AllowMethods::MirrorRequest, None),
        };
        let allow_origin = match self.allow_origin {
            AllowOrigin::List(list) => AllowOrigin::List(without_repeats(list)),
            AllowOrigin::Any => AllowOrigin::Any,
            AllowOrigin::MirrorRequest => AllowOrigin::MirrorRequest,
        };
        let expose_headers_header = match self.expose_headers {
            ExposeHeaders::List(list) => if list.len() == 0 {
                None
            } else {
                let once = without_repeats(list);
                let value = names_value(&once);
                assert(Seq::new(once@.len(), |i: int| once@[i]@) =~= spec_names(once@));
                Some(value)
            },
            ExposeHeaders::Any => Some("*".to_owned()),
        };
        Cors {
            credentials: self.allow_credentials,
            allow_headers,
            allow_methods,
            allow_origin,
            max_age: self.max_age,
            allowed_headers_header,
            expose_headers_header,
            methods_header,
        }
    }
}

/// The view of an optional text.
pub open spec fn spec_text(text: Option<String>) -> Option<Seq<char>> {
    match text {
        Some(value) => Some(value@),
        None => None,
    }
}

/// One header of a response: its name and its value.
#[derive(Debug, PartialEq, Eq)]
pub struct ResponseHeader {
    /// The name.
    pub name: &'static str,
    /// The value.
    pub value: String,
}

/// What becomes of a request.
#[derive(Debug, PartialEq, Eq)]
pub struct CorsOutcome {
    /// The status to answer with at once, where the request is refused.
    pub status: Option<u16>,
    /// The headers to set on the response, in this order.
    pub headers: Vec<ResponseHeader>,
    /// Whether the handlers that follow are called.
    pub proceed: bool,
}

/// The names and values of `headers`.
pub open spec fn spec_header_pairs(headers: Seq<ResponseHeader>) -> Seq<(Seq<char>, Seq<char>)> {
    Seq::new(headers.len(), |i: int| (headers[i].name@, headers[i].value@))
}

impl Cors {
    /// Whether credentials are allowed.
    pub closed spec fn spec_credentials(&self) -> bool {
        self.credentials
    }

    /// Which request headers are allowed.
    pub closed spec fn spec_allow_headers(&self) -> AllowHeaders {
        self.allow_headers
    }

    /// Which request methods are allowed.
    pub closed spec fn spec_allow_methods(&self) -> AllowMethods {
        self.allow_methods
    }

    /// Which origins are allowed.
    pub closed spec fn spec_allow_origin(&self) -> AllowOrigin {
        self.allow_origin
    }

    /// For how many seconds the answer to a preflight request may be kept.
    pub closed spec fn spec_max_age(&self) -> Option<u64> {
        self.max_age
    }

    /// The value of `Access-Control-Allow-Headers`, where it is fixed.
    pub closed spec fn spec_allowed_headers_header(&self) -> Option<Seq<char>> {
        spec_text(self.allowed_headers_header)
    }

    /// The value of `Access-Control-Allow-Methods`, where it is fixed.
    pub closed spec fn spec_methods_header(&self) -> Option<Seq<char>> {
        spec_text(self.methods_header)
    }

    /// The value of `Access-Control-Expose-Headers`, where there is one.
    pub closed spec fn spec_expose_headers_header(&self) -> Option<Seq<char>> {
        spec_text(self.expose_headers_header)
    }

    /// A builder with the strictest settings.
    pub fn builder() -> (builder: CorsBuilder)
        ensures
            !builder.allow_credentials,
            builder.allow_headers matches AllowHeaders::List(list) && list@.len() == 0,
            builder.allow_methods matches AllowMethods::List(list) && list@.len() == 0,
            builder.allow_origin matches AllowOrigin::List(list) && list@.len() == 0,
            builder.expose_headers matches ExposeHeaders::List(list) && list@.len() == 0,
            builder.max_age is None,
    {
        CorsBuilder::new()
    }

    /// Whether `origin` is allowed.
    pub fn is_origin_allowed(&self, origin: &str) -> (allowed: bool)
        ensures
            allowed == spec_origin_allowed(self.spec_allow_origin(), origin@),
    {
        match &self.allow_origin {
            AllowOrigin::List(list) => {
                let mut i: usize = 0;
                while i < list.len()
                    invariant
                        i <= list.len(),
                        self.allow_origin == AllowOrigin::List(*list),
                        forall|j: int| 0 <= j < i ==> (#[trigger] list@[j])@ != origin@,
                    decreases list.len() - i,
                {
                    if is_word(list[i].as_str(), origin) {
                        assert(list@[i as int]@ == origin@);
                        assert(self.allow_origin->List_0 == *list);
                        return true;
                    }
                    i += 1;
                }
                false
            },
            _ => true,
        }
    }

    /// Whether the method with the token `token` is allowed; `None` stands
    /// for bytes that spell no method.
    pub fn is_token_allowed(&self, token: &Option<Method>) -> (allowed: bool)
        ensures
            allowed == spec_method_allowed(
                self.spec_allow_methods(),
                match token {
                    Some(method) => Some(method@),
                    None => None,
                },
            ),
    {
        match token {
            None => false,
            Some(method) => match &self.allow_methods {
                AllowMethods::List(list) => {
                    let mut i: usize = 0;
                    while i < list.len()
                        invariant
                            i <= list.len(),
                            self.allow_methods == AllowMethods::List(*list),
                            *token == Some(*method),
                            forall|j: int| 0 <= j < i ==> (#[trigger] list@[j])@ != method@,
                        decreases list.len() - i,
                    {
                        if list[i].same_as(method) {
                            assert(list@[i as int]@ == method@);
                            assert(self.allow_methods->List_0 == *list);
                            return true;
                        }
                        i += 1;
                    }
                    false
                },
                _ => true,
            },
        }
    }

    /// Whether the method that the bytes spell is allowed.
    pub fn is_method_allowed(&self, header: &[u8]) -> (allowed: bool)
        ensures
            allowed == spec_method_allowed(self.spec_allow_methods(), spec_method_token(header@)),
    {
        let token = match Method::from_bytes(header) {
            Ok(method) => Some(method),
            Err(_) => None,
        };
        self.is_token_allowed(&token)
    }

    /// Whether the header with the name `name` is allowed; `None` stands for
    /// text that spells no header name.
    pub fn is_name_allowed(&self, name: &Option<HeaderName>) -> (allowed: bool)
        ensures
            allowed == spec_header_allowed(
                self.spec_allow_headers(),
                match name {
                    Some(header) => Some(header@),
                    None => None,
                },
            ),
    {
        match name {
            None => false,
            Some(header) => match &self.allow_headers {
                AllowHeaders::List(list) => {
                    let mut i: usize = 0;
                    while i < list.len()
                        invariant
                            i <= list.len(),
                            self.allow_headers == AllowHeaders::List(*list),
                            *name == Some(*header),
                            forall|j: int| 0 <= j < i ==> (#[trigger] list@[j])@ != header@,
                        decreases list.len() - i,
                    {
                        if list[i].same_as(header) {
                            assert(list@[i as int]@ == header@);
                            assert(self.allow_headers->List_0 == *list);
                            return true;
                        }
                        i += 1;
                    }
                    false
                },
                _ => true,
            },
        }
    }

    /// Whether the header that the text spells is allowed.
    pub fn is_header_allowed(&self, header: &str) -> (allowed: bool)
        ensures
            allowed == spec_header_allowed(
                self.spec_allow_headers(),
                spec_header_name(vstd::utf8::encode_utf8(header@)),
            ),
    {
        let name = match HeaderName::from_bytes(header.as_bytes()) {
            Ok(name) => Some(name),
            Err(_) => None,
        };
        self.is_name_allowed(&name)
    }

    /// What a request turns out to be, given its method, its `Origin`, and
    /// what it asks for in `Access-Control-Request-Method` and in
    /// `Access-Control-Request-Headers`.
    #[verifier::loop_isolation(false)]
    pub fn check_request(
        &self,
        method: &Method,
        origin: Option<&str>,
        request_method: Option<&[u8]>,
        request_headers: &HeaderText,
    ) -> (checked: Result<Validated, Forbidden>)
        ensures
            checked == spec_check_request(
                self.spec_allow_origin(),
                self.spec_allow_methods(),
                self.spec_allow_headers(),
                method@,
                match origin {
                    Some(from) => Some(from@),
                    None => None,
                },
                match request_method {
                    Some(bytes) => Some(bytes@),
                    None => None,
                },
                *request_headers,
            ),
    {
        let from = match origin {
            Some(from) => from,
            None => {
                return Ok(Validated::NotCors);
            },
        };
        if !self.is_origin_allowed(from) {
            return Err(Forbidden::Origin);
        }
        if !method.is("OPTIONS") {
            return Ok(Validated::Simple);
        }
        match request_method {
            Some(bytes) => {
                if !self.is_method_allowed(bytes) {
                    return Err(Forbidden::Method);
                }
            },
            None => {
                return Err(Forbidden::Method);
            },
        }
        match request_headers {
            HeaderText::Absent => Ok(Validated::Preflight),
            HeaderText::Opaque => Err(Forbidden::Header),
            HeaderText::Text(value) => {
                let pieces = split_char(value.as_str(), ',');
                let mut i: usize = 0;
                while i < pieces.len()
                    invariant
                        i <= pieces.len(),
                        spec_views(pieces@) == spec_split(value@, ','),
                        *request_headers == HeaderText::Text(*value),
                        forall|j: int|
                            0 <= j < i ==> spec_header_allowed(
                                self.spec_allow_headers(),
                                spec_header_name(
                                    vstd::utf8::encode_utf8(#[trigger] spec_split(value@, ',')[j]),
                                ),
                            ),
                    decreases pieces.len() - i,
                {
                    assert(spec_views(pieces@)[i as int] == pieces@[i as int]@);
                    if !self.is_header_allowed(pieces[i].as_str()) {
                        assert(!spec_header_allowed(
                            self.spec_allow_headers(),
                            spec_header_name(
                                vstd::utf8::encode_utf8(spec_split(value@, ',')[i as int]),
                            ),
                        ));
                        assert(!spec_headers_allowed(
                            self.spec_allow_headers(),
                            spec_split(value@, ','),
                        ));
                        return Err(Forbidden::Header);
                    }
                    i += 1;
                }
                assert(spec_views(pieces@).len() == pieces@.len());
                Ok(Validated::Preflight)
            },
        }
    }

    /// The headers that every answer to a request of another origin
    /// carries: that credentials are allowed, where they are, and the
    /// headers that are exposed, where there are any.
    pub open spec fn spec_common_headers(&self) -> Seq<(Seq<char>, Seq<char>)> {
        let credentials = if self.spec_credentials() {
            seq![("access-control-allow-credentials"@, "true"@)]
        } else {
            Seq::empty()
        };
        match self.spec_expose_headers_header() {
            Some(value) => credentials.push(("access-control-expose-headers"@, value)),
            None => credentials,
        }
    }

    /// The headers that the answer to a preflight request carries besides:
    /// the headers and the methods that are allowed, which are those asked
    /// for where the request is mirrored, and how long the answer may be kept.
    pub open spec fn spec_preflight_headers(
        &self,
        asked_headers: Seq<char>,
        asked_method: Seq<char>,
    ) -> Seq<(Seq<char>, Seq<char>)> {
        let fixed = self.spec_common_headers().push(
            (
                "access-control-allow-headers"@,
                match self.spec_allowed_headers_header() {
                    Some(value) => value,
                    None => asked_headers,
                },
            ),
        ).push(
            (
                "access-control-allow-methods"@,
                match self.spec_methods_header() {
                    Some(value) => value,
                    None => asked_method,
                },
            ),
        );
        match self.spec_max_age() {
            Some(seconds) => fixed.push(("access-control-max-age"@, spec_decimal(seconds as nat))),
            None => fixed,
        }
    }

    /// Adds the headers that every answer to a request of another origin carries.
    pub fn append_common_headers(&self, headers: &mut Vec<ResponseHeader>)
        ensures
            spec_header_pairs(final(headers)@) == spec_header_pairs(old(headers)@)
                + self.spec_common_headers(),
    {
        let ghost before = spec_header_pairs(headers@);
        if self.credentials {
            headers.push(
                ResponseHeader { name: "access-control-allow-credentials", value: "true".to_owned() },
            );
        }
        let ghost middle = spec_header_pairs(headers@);
        assert(middle =~= before + (if self.credentials {
            seq![("access-control-allow-credentials"@, "true"@)]
        } else {
            Seq::empty()
        }));
        if let Some(value) = &self.expose_headers_header {
            headers.push(ResponseHeader { name: "access-control-expose-headers", value: value.clone() });
        }
        assert(spec_header_pairs(headers@) =~= before + self.spec_common_headers());
    }

    /// Adds the headers that the answer to a preflight request carries,
    /// where the request asks for `asked_headers` and for `asked_method`.
    pub fn append_preflight_headers(
        &self,
        headers: &mut Vec<ResponseHeader>,
        asked_headers: &str,
        asked_method: &str,
    )
        ensures
            spec_header_pairs(final(headers)@) == spec_header_pairs(old(headers)@)
                + self.spec_preflight_headers(asked_headers@, asked_method@),
    {
        let ghost before = spec_header_pairs(headers@);
        self.append_common_headers(headers);
        let ghost common = spec_header_pairs(headers@);
        let allowed = match &self.allowed_headers_header {
            Some(value) => value.clone(),
            None => asked_headers.to_owned(),
        };
        let ghost allowed_text = allowed@;
        headers.push(ResponseHeader { name: "access-control-allow-headers", value: allowed });
        let ghost second = spec_header_pairs(headers@);
        assert(second =~= common.push(("access-control-allow-headers"@, allowed_text)));
        let methods = match &self.methods_header {
            Some(value) => value.clone(),
            None => asked_method.to_owned(),
        };
        let ghost methods_text = methods@;
        headers.push(ResponseHeader { name: "access-control-allow-methods", value: methods });
        let ghost third = spec_header_pairs(headers@);
        assert(third =~= second.push(("access-control-allow-methods"@, methods_text)));
        if let Some(seconds) = self.max_age {
            headers.push(ResponseHeader { name: "access-control-max-age", value: decimal(seconds) });
            assert(spec_header_pairs(headers@) =~= third.push(
                ("access-control-max-age"@, spec_decimal(seconds as nat)),
            ));
        }
        assert(spec_header_pairs(headers@) =~= before + self.spec_preflight_headers(
            asked_headers@,
            asked_method@,
        ));
    }

    /// What becomes of a request that has been checked with the result
    /// `checked`: a refused one is answered with `403` and goes no further;
    /// an allowed one goes on with the headers of its kind and with the
    /// origin it came from as the one that is allowed.
    pub fn handle(
        &self,
        checked: Result<Validated, Forbidden>,
        origin: &str,
        asked_headers: &str,
        asked_method: &str,
    ) -> (outcome: CorsOutcome)
        ensures
            match checked {
                Err(_) => outcome.status == Some(FORBIDDEN) && !outcome.proceed
                    && outcome.headers@.len() == 0,
                Ok(Validated::NotCors) => outcome.status is None && outcome.proceed
                    && outcome.headers@.len() == 0,
                Ok(Validated::Simple) => outcome.status is None && outcome.proceed
                    && spec_header_pairs(outcome.headers@) == self.spec_common_headers().push(
                    ("access-control-allow-origin"@, origin@),
                ),
                Ok(Validated::Preflight) => outcome.status is None && outcome.proceed
                    && spec_header_pairs(outcome.headers@) == self.spec_preflight_headers(
                    asked_headers@,
                    asked_method@,
                ).push(("access-control-allow-origin"@, origin@)),
            },
    {
        let mut headers: Vec<ResponseHeader> = Vec::new();
        assert(spec_header_pairs(headers@) =~= Seq::empty());
        match checked {
            Err(_) => CorsOutcome { status: Some(FORBIDDEN), headers, proceed: false },
            Ok(Validated::NotCors) => CorsOutcome { status: None, headers, proceed: true },
            Ok(Validated::Simple) => {
                self.append_common_headers(&mut headers);
                let ghost common = spec_header_pairs(headers@);
                headers.push(
                    ResponseHeader { name: "access-control-allow-origin", value: origin.to_owned() },
                );
                assert(spec_header_pairs(headers@) =~= common.push(
                    ("access-control-allow-origin"@, origin@),
                ));
                assert(common =~= self.spec_common_headers());
                CorsOutcome { status: None, headers, proceed: true }
            },
            Ok(Validated::Preflight) => {
                self.append_preflight_headers(&mut headers, asked_headers, asked_method);
                let ghost fixed = spec_header_pairs(headers@);
                headers.push(
                    ResponseHeader { name: "access-control-allow-origin", value: origin.to_owned() },
                );
                assert(spec_header_pairs(headers@) =~= fixed.push(
                    ("access-control-allow-origin"@, origin@),
                ));
                assert(fixed =~= self.spec_preflight_headers(asked_headers@, asked_method@));
                CorsOutcome { status: None, headers, proceed: true }
            },
        }
    }
}

} // verus!
