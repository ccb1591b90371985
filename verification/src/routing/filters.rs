//! Filters that admit a request by its method, scheme, host or port.
//!
//! Host and port are read from the `Host` header, since a request line may
//! not tell them.

use vstd::prelude::*;
use vstd::string::StrSliceExecFns;

use crate::conn::holding::Scheme;
use crate::http::Method;
use crate::text::{
    is_word, last_index_of, lemma_last_index_of, parse_u16, spec_last_index_of, spec_parse_u16,
};

verus! {

/// The part of a `Host` value that names the host: what stands before the
/// last colon, and all of it where there is no colon.
pub open spec fn spec_host_part(value: Seq<char>) -> Seq<char> {
    match spec_last_index_of(value, ':') {
        Some(at) => value.subrange(0, at),
        None => value,
    }
}

/// The part of a `Host` value that is read as the port: what stands after
/// the last colon, and all of it where there is no colon.
pub open spec fn spec_port_part(value: Seq<char>) -> Seq<char> {
    match spec_last_index_of(value, ':') {
        Some(at) => value.subrange(at + 1, value.len() as int),
        None => value,
    }
}

/// The part of a `Host` value that names the host.
pub fn host_part(value: &str) -> (part: &str)
    ensures
        part@ == spec_host_part(value@),
{
    match last_index_of(value, ':') {
        Some(at) => {
            proof {
                lemma_last_index_of(value@, ':');
            }
            value.substring_char(0, at)
        },
        None => value,
    }
}

/// The part of a `Host` value that is read as the port.
pub fn port_part(value: &str) -> (part: &str)
    ensures
        part@ == spec_port_part(value@),
{
    match last_index_of(value, ':') {
        Some(at) => {
            proof {
                lemma_last_index_of(value@, ':');
            }
            let end = value.unicode_len();
            value.substring_char(at + 1, end)
        },
        None => value,
    }
}

/// Admits the requests of one method.
#[derive(Clone, Debug, PartialEq, Eq)]
pub struct MethodFilter(pub Method);

impl MethodFilter {
    /// The filter that admits `method`.
    pub fn new(method: Method) -> (filter: Self)
        ensures
            filter.0 == method,
    {
        MethodFilter(method)
    }

    /// Whether a request with `method` is admitted: it is the filter's method.
    pub fn filter(&self, method: &Method) -> (admitted: bool)
        ensures
            admitted == (method@ == self.0@),
    {
        method.same_as(&self.0)
    }
}

/// Admits the requests of one URI scheme.
#[derive(Clone, Copy, Debug, PartialEq, Eq, Structural)]
#[non_exhaustive]
pub struct SchemeFilter {
    /// The scheme that is admitted.
    pub scheme: Scheme,
    /// Whether a request is admitted whose URI has no scheme.
    pub lack: bool,
}

impl SchemeFilter {
    /// The filter that admits `scheme`, and no request without a scheme.
    pub fn new(scheme: Scheme) -> (filter: Self)
        ensures
            filter.scheme == scheme,
            !filter.lack,
    {
        SchemeFilter { scheme, lack: false }
    }

    /// Sets whether a request is admitted whose URI has no scheme.
    pub fn lack(self, lack: bool) -> (filter: Self)
        ensures
            filter.scheme == self.scheme,
            filter.lack == lack,
    {
        SchemeFilter { scheme: self.scheme, lack }
    }

    /// Whether a request is admitted whose URI has the scheme `scheme`, or none.
    pub fn filter(&self, scheme: Option<Scheme>) -> (admitted: bool)
        ensures
            admitted == match scheme {
                Some(given) => given == self.scheme,
                None => self.lack,
            },
    {
        match scheme {
            Some(given) => given == self.scheme,
            None => self.lack,
        }
    }
}

/// Admits the requests for one host.
#[derive(Clone, Debug, PartialEq, Eq)]
pub struct HostFilter {
    /// The host that is admitted.
    pub host: String,
    /// Whether a request is admitted that names no host.
    pub lack: bool,
}

impl HostFilter {
    /// The filter that admits `host`, and no request without a host.
    pub fn new(host: &str) -> (filter: Self)
        ensures
            filter.host@ == host@,
            !filter.lack,
    {
        HostFilter { host: host.to_owned(), lack: false }
    }

    /// Sets whether a request is admitted that names no host.
    pub fn lack(self, lack: bool) -> (filter: Self)
        ensures
            filter.host == self.host,
            filter.lack == lack,
    {
        HostFilter { host: self.host, lack }
    }

    /// Whether a request is admitted, given the text of its `Host` header:
    /// the part before the port is the filter's host. `None` stands for a
    /// request that has no such header or one that is no text.
    pub fn filter(&self, host_header: Option<&str>) -> (admitted: bool)
        ensures
            admitted == match host_header {
                Some(value) => spec_host_part(value@) == self.host@,
                None => self.lack,
            },
    {
        match host_header {
            Some(value) => is_word(host_part(value), self.host.as_str()),
            None => self.lack,
        }
    }
}

/// Admits the requests for one port.
#[derive(Clone, Copy, Debug, PartialEq, Eq, Structural)]
#[non_exhaustive]
pub struct PortFilter {
    /// The port that is admitted.
    pub port: u16,
    /// Whether a request is admitted that names no port.
    pub lack: bool,
}

impl PortFilter {
    /// The filter that admits `port`, and no request without a port.
    pub fn new(port: u16) -> (filter: Self)
        ensures
            filter.port == port,
            !filter.lack,
    {
        PortFilter { port, lack: false }
    }

    /// Sets whether a request is admitted that names no port.
    pub fn lack(self, lack: bool) -> (filter: Self)
        ensures
            filter.port == self.port,
            filter.lack == lack,
    {
        PortFilter { port: self.port, lack }
    }

    /// Whether a request is admitted, given the text of its `Host` header:
    /// what follows the last colon is the filter's port. A header without a
    /// number there counts as none, and so does `None`, which stands for a
    /// request that has no such header or one that is no text.
    pub fn filter(&self, host_header: Option<&str>) -> (admitted: bool)
        ensures
            admitted == match host_header {
                Some(value) => match spec_parse_u16(spec_port_part(value@)) {
                    Some(port) => port == self.port,
                    None => self.lack,
                },
                None => self.lack,
            },
    {
        match host_header {
            Some(value) => match parse_u16(port_part(value)) {
                Some(port) => port == self.port,
                None => self.lack,
            },
            None => self.lack,
        }
    }
}

} // verus!
