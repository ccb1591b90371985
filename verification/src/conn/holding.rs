//! Descriptors of bound endpoints and of accepted connections.

use vstd::prelude::*;

use crate::text::{push_decimal, push_text, spec_decimal};

verus! {

/// HTTP protocol version spoken on a connection.
#[derive(Clone, Copy, PartialEq, Eq, Debug, Hash, Structural)]
pub enum Version {
    /// HTTP/0.9
    Http09,
    /// HTTP/1.0
    Http10,
    /// HTTP/1.1
    Http11,
    /// HTTP/2
    Http2,
    /// HTTP/3
    Http3,
}

impl Version {
    /// The version that a TLS handshake has negotiated: HTTP/2 for the token
    /// `h2`, HTTP/1.1 for every other token and where none was agreed.
    pub open spec fn spec_from_alpn(protocol: Option<Seq<u8>>) -> Version {
        match protocol {
            Some(token) if token == seq![0x68u8, 0x32u8] => Version::Http2,
            _ => Version::Http11,
        }
    }

    /// The version that a TLS handshake has negotiated, from the protocol
    /// token that both ends agreed on.
    pub fn from_alpn(protocol: Option<&[u8]>) -> (version: Version)
        ensures
            version == Self::spec_from_alpn(
                match protocol {
                    Some(token) => Some(token@),
                    None => None,
                },
            ),
    {
        match protocol {
            Some(token) => {
                if token.len() == 2 && token[0] == 0x68u8 && token[1] == 0x32u8 {
                    assert(token@ =~= seq![0x68u8, 0x32u8]);
                    Version::Http2
                } else {
                    assert(token@ != seq![0x68u8, 0x32u8]) by {
                        if token@.len() == 2 {
                            assert(seq![0x68u8, 0x32u8][0] == 0x68u8);
                            assert(seq![0x68u8, 0x32u8][1] == 0x32u8);
                        } else {
                            assert(seq![0x68u8, 0x32u8].len() == 2);
                        }
                    }
                    Version::Http11
                }
            },
            None => Version::Http11,
        }
    }
}

/// URI scheme under which an endpoint is reached.
#[derive(Clone, Copy, PartialEq, Eq, Debug, Hash, Structural)]
pub enum Scheme {
    /// Plain text.
    Http,
    /// Over TLS.
    Https,
}

/// Address of one end of a connection.
#[derive(Debug, PartialEq, Eq)]
pub enum SocketAddr {
    /// Nothing is known about the address.
    Unknown,
    /// An IPv4 address and port.
    IPv4 { octets: [u8; 4], port: u16 },
    /// An IPv6 address and port.
    IPv6 { segments: [u16; 8], port: u16 },
    /// The path of a Unix domain socket.
    Unix { path: String },
}

impl Clone for SocketAddr {
    fn clone(&self) -> (copy: Self)
        ensures
            copy == *self,
    {
        match self {
            SocketAddr::Unknown => SocketAddr::Unknown,
            SocketAddr::IPv4 { octets, port } => SocketAddr::IPv4 { octets: *octets, port: *port },
            SocketAddr::IPv6 { segments, port } => SocketAddr::IPv6 {
                segments: *segments,
                port: *port,
            },
            SocketAddr::Unix { path } => SocketAddr::Unix { path: path.clone() },
        }
    }
}

impl SocketAddr {
    /// The port, for the address families that have one.
    pub open spec fn spec_port(&self) -> Option<u16> {
        match self {
            SocketAddr::IPv4 { port, .. } => Some(*port),
            SocketAddr::IPv6 { port, .. } => Some(*port),
            _ => None,
        }
    }

    /// The port of an internet address; `None` for the other kinds.
    pub fn port(&self) -> (port: Option<u16>)
        ensures
            port == self.spec_port(),
    {
        match self {
            SocketAddr::IPv4 { port, .. } => Some(*port),
            SocketAddr::IPv6 { port, .. } => Some(*port),
            _ => None,
        }
    }
}

/// Whether `versions` holds `wanted`.
pub fn has_version(versions: &Vec<Version>, wanted: Version) -> (found: bool)
    ensures
        found == versions@.contains(wanted),
{
    let mut i: usize = 0;
    while i < versions.len()
        invariant
            i <= versions.len(),
            forall|j: int| 0 <= j < i ==> versions@[j] != wanted,
        decreases versions.len() - i,
    {
        if versions[i] == wanted {
            return true;
        }
        i += 1;
    }
    false
}

/// A copy of `versions`.
pub fn copy_versions(versions: &Vec<Version>) -> (copy: Vec<Version>)
    ensures
        copy@ == versions@,
{
    let mut copy: Vec<Version> = Vec::new();
    let mut i: usize = 0;
    while i < versions.len()
        invariant
            i <= versions.len(),
            copy@ == versions@.take(i as int),
        decreases versions.len() - i,
    {
        copy.push(versions[i]);
        assert(versions@.take(i + 1) =~= versions@.take(i as int).push(versions@[i as int]));
        i += 1;
    }
    assert(versions@.take(versions@.len() as int) =~= versions@);
    copy
}

/// What one bound endpoint offers: its address, the protocol versions it
/// speaks and the scheme under which it is reached.
#[derive(Debug, PartialEq, Eq)]
pub struct Holding {
    /// The address the endpoint is bound to.
    pub local_addr: SocketAddr,
    /// The protocol versions spoken there, without repetition.
    pub http_versions: Vec<Version>,
    /// The scheme under which the endpoint is reached.
    pub http_scheme: Scheme,
}

/// A [`Holding`] as mathematics.
pub struct HoldingView {
    /// The address the endpoint is bound to.
    pub local_addr: SocketAddr,
    /// The protocol versions spoken there.
    pub http_versions: Seq<Version>,
    /// The scheme under which the endpoint is reached.
    pub http_scheme: Scheme,
}

impl View for Holding {
    type V = HoldingView;

    open spec fn view(&self) -> HoldingView {
        HoldingView {
            local_addr: self.local_addr,
            http_versions: self.http_versions@,
            http_scheme: self.http_scheme,
        }
    }
}

impl Clone for Holding {
    fn clone(&self) -> (copy: Self)
        ensures
            copy@ == self@,
    {
        Holding {
            local_addr: self.local_addr.clone(),
            http_versions: copy_versions(&self.http_versions),
            http_scheme: self.http_scheme,
        }
    }
}

impl Holding {
    /// A holding is well formed when it speaks at least one protocol version.
    pub open spec fn wf(&self) -> bool {
        self.http_versions@.len() > 0
    }
}

/// The value of the `Alt-Svc` header that advertises HTTP/3 on `port`.
pub open spec fn spec_alt_svc_value(port: u16) -> Seq<char> {
    "h3=\":"@ + spec_decimal(port as nat) + "\"; ma=2592000,h3-29=\":"@ + spec_decimal(port as nat)
        + "\"; ma=2592000"@
}

/// The value of the `Alt-Svc` header that advertises HTTP/3 on `port`.
pub fn alt_svc_value(port: u16) -> (value: String)
    ensures
        value@ == spec_alt_svc_value(port),
{
    let mut value = String::new();
    push_text(&mut value, "h3=\":");
    push_decimal(&mut value, port as u64);
    push_text(&mut value, "\"; ma=2592000,h3-29=\":");
    push_decimal(&mut value, port as u64);
    push_text(&mut value, "\"; ma=2592000");
    assert(value@ =~= spec_alt_svc_value(port));
    value
}

/// Whether one of `holdings` speaks HTTP/3 on the internet port `port`.
pub open spec fn spec_speaks_h3_on(holdings: Seq<Holding>, port: u16) -> bool {
    exists|i: int|
        0 <= i < holdings.len() && (#[trigger] holdings[i]).http_versions@.contains(Version::Http3)
            && holdings[i].local_addr.spec_port() == Some(port)
}

/// The `Alt-Svc` value for the connections that arrive at the port
/// `local_port` of a server with these holdings: the value that advertises
/// HTTP/3 on that port, where one of the holdings speaks HTTP/3 there. A
/// connection that arrived at no internet port, or at a port on which nothing
/// speaks HTTP/3, gets none.
pub open spec fn spec_alt_svc_for(holdings: Seq<Holding>, local_port: Option<u16>) -> Option<
    Seq<char>,
> {
    match local_port {
        Some(port) => if spec_speaks_h3_on(holdings, port) {
            Some(spec_alt_svc_value(port))
        } else {
            None
        },
        None => None,
    }
}

/// Whether one of `holdings` speaks HTTP/3 on the internet port `port`.
pub fn speaks_h3_on(holdings: &[Holding], port: u16) -> (speaks: bool)
    ensures
        speaks == spec_speaks_h3_on(holdings@, port),
{
    let mut i: usize = 0;
    while i < holdings.len()
        invariant
            i <= holdings.len(),
            forall|j: int|
                0 <= j < i ==> !((#[trigger] holdings@[j]).http_versions@.contains(Version::Http3)
                    && holdings@[j].local_addr.spec_port() == Some(port)),
        decreases holdings.len() - i,
    {
        let holding = &holdings[i];
        let here = match holding.local_addr.port() {
            Some(held) => held == port,
            None => false,
        };
        if here && has_version(&holding.http_versions, Version::Http3) {
            assert(holdings@[i as int].http_versions@.contains(Version::Http3));
            return true;
        }
        i += 1;
    }
    false
}

/// The `Alt-Svc` value with which the connections that arrive at
/// `local_addr` advertise that HTTP/3 is spoken on the same port.
pub fn alt_svc_for(holdings: &[Holding], local_addr: &SocketAddr) -> (value: Option<String>)
    ensures
        match value {
            Some(text) => spec_alt_svc_for(holdings@, local_addr.spec_port()) == Some(text@),
            None => spec_alt_svc_for(holdings@, local_addr.spec_port()) is None,
        },
{
    match local_addr.port() {
        Some(port) => {
            if speaks_h3_on(holdings, port) {
                Some(alt_svc_value(port))
            } else {
                None
            }
        },
        None => None,
    }
}

/// A server advertises HTTP/3 only on a port on which it speaks HTTP/3, and
/// then with the value for that very port.
pub proof fn lemma_alt_svc_is_bound_to_the_port(holdings: Seq<Holding>, local_port: Option<u16>)
    ensures
        spec_alt_svc_for(holdings, local_port) is Some <==> (local_port is Some
            && spec_speaks_h3_on(holdings, local_port->0)),
        spec_alt_svc_for(holdings, local_port) is Some ==> spec_alt_svc_for(holdings, local_port)
            == Some(spec_alt_svc_value(local_port->0)),
{
}

/// A connection that an acceptor has yielded, with what is known of it.
#[derive(Debug)]
pub struct Accepted<C> {
    /// The connection itself.
    pub conn: C,
    /// The address it arrived at.
    pub local_addr: SocketAddr,
    /// The address it came from.
    pub remote_addr: SocketAddr,
    /// The protocol version spoken on it.
    pub http_version: Version,
    /// The scheme under which it was reached.
    pub http_scheme: Scheme,
}

impl<C> Accepted<C> {
    /// The same connection facts around another connection value: what a
    /// wrapping layer hands on after it has put its own stream around `conn`.
    pub fn map_conn<D>(self, conn: D) -> (wrapped: Accepted<D>)
        ensures
            wrapped.conn == conn,
            wrapped.local_addr == self.local_addr,
            wrapped.remote_addr == self.remote_addr,
            wrapped.http_version == self.http_version,
            wrapped.http_scheme == self.http_scheme,
    {
        Accepted {
            conn,
            local_addr: self.local_addr,
            remote_addr: self.remote_addr,
            http_version: self.http_version,
            http_scheme: self.http_scheme,
        }
    }
}

} // verus!
