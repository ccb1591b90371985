//! Connection endpoints: what a bound endpoint holds, how layers wrap one
//! another, and the decisions taken while accepting.

use std::time::Duration;
use vstd::prelude::*;

use crate::conn::holding::{Holding, Version};

pub mod holding;
pub mod idle;
pub mod native_tls;
pub mod quinn;
pub mod unix;

verus! {

/// Yields accepted connections one at a time and tells what it holds.
///
/// Waiting for the next connection is the implementor's business; what the
/// layers of this crate need from one another is the list of holdings.
pub trait Acceptor {
    /// The endpoints held, as a sequence.
    spec fn spec_holdings(&self) -> Seq<Holding>;

    /// The endpoints held.
    fn holdings(&self) -> (held: &[Holding])
        ensures
            held@ == self.spec_holdings(),
    ;
}

/// A source of configuration updates that can be asked, without waiting,
/// whether another update is ready.
pub trait ConfigSource {
    /// The kind of update.
    type Config;

    /// The updates that are ready now, oldest first.
    spec fn pending(&self) -> Seq<Self::Config>;

    /// Takes the oldest update that is ready. Never waits: where none is
    /// ready, the answer is `None`.
    fn try_next(&mut self) -> (next: Option<Self::Config>)
        ensures
            old(self).pending().len() == 0 ==> {
                &&& next is None
                &&& final(self).pending() == old(self).pending()
            },
            old(self).pending().len() > 0 ==> {
                &&& next == Some(old(self).pending()[0])
                &&& final(self).pending() == old(self).pending().drop_first()
            },
    ;
}

/// Takes every update that is ready out of `source` and keeps the last one.
///
/// Updates that were superseded before anyone looked are skipped.
pub fn drain_latest<S: ConfigSource>(source: &mut S) -> (latest: Option<S::Config>)
    ensures
        final(source).pending().len() == 0,
        old(source).pending().len() == 0 ==> latest is None,
        old(source).pending().len() > 0 ==> latest == Some(old(source).pending().last()),
{
    let mut latest: Option<S::Config> = None;
    loop
        invariant
            source.pending().len() <= old(source).pending().len(),
            source.pending() == old(source).pending().skip(
                old(source).pending().len() - source.pending().len(),
            ),
            source.pending().len() == old(source).pending().len() ==> latest is None,
            source.pending().len() < old(source).pending().len() ==> latest == Some(
                old(source).pending()[old(source).pending().len() - source.pending().len() - 1],
            ),
        ensures
            source.pending().len() == 0,
            old(source).pending().len() == 0 ==> latest is None,
            old(source).pending().len() > 0 ==> latest == Some(old(source).pending().last()),
        decreases source.pending().len(),
    {
        let ghost before = source.pending();
        match source.try_next() {
            Some(update) => {
                proof {
                    let all = old(source).pending();
                    let skipped = all.len() - before.len();
                    assert(before[0] == all[skipped]);
                    assert(before.drop_first() =~= all.skip(skipped + 1));
                }
                latest = Some(update);
            },
            None => {
                break ;
            },
        }
    }
    latest
}

/// A queue of configuration updates: the simplest source there is.
pub struct ConfigQueue<C> {
    items: Vec<C>,
}

impl<C> ConfigQueue<C> {
    /// An empty queue.
    pub fn new() -> (queue: Self)
        ensures
            queue.pending().len() == 0,
    {
        ConfigQueue { items: Vec::new() }
    }

    /// Puts `update` at the end of the queue.
    pub fn push(&mut self, update: C)
        ensures
            final(self).pending() == old(self).pending().push(update),
    {
        self.items.push(update);
    }

    /// The number of updates waiting.
    pub fn len(&self) -> (len: usize)
        ensures
            len == self.pending().len(),
    {
        self.items.len()
    }
}

impl<C> ConfigSource for ConfigQueue<C> {
    type Config = C;

    closed spec fn pending(&self) -> Seq<C> {
        self.items@
    }

    fn try_next(&mut self) -> (next: Option<C>) {
        if self.items.len() == 0 {
            None
        } else {
            let first = self.items.remove(0);
            assert(self.items@ =~= old(self).items@.drop_first());
            Some(first)
        }
    }
}

/// An acceptor over a transport that the caller drives: it keeps the
/// transport and tells what it holds.
#[derive(Debug)]
pub struct TransportAcceptor<T> {
    transport: T,
    holdings: Vec<Holding>,
}

impl<T> TransportAcceptor<T> {
    /// The transport.
    pub closed spec fn spec_transport(&self) -> T {
        self.transport
    }

    /// An acceptor over `transport`, which holds `holdings`.
    pub fn new(transport: T, holdings: Vec<Holding>) -> (acceptor: Self)
        ensures
            acceptor.spec_transport() == transport,
            acceptor.spec_holdings() == holdings@,
    {
        TransportAcceptor { transport, holdings }
    }

    /// The transport.
    pub fn transport(&self) -> (transport: &T)
        ensures
            *transport == self.spec_transport(),
    {
        &self.transport
    }

    /// The transport, to be driven.
    pub fn transport_mut(&mut self) -> (transport: &mut T)
        ensures
            *transport == old(self).spec_transport(),
            final(self).spec_transport() == *final(transport),
            final(self).spec_holdings() == old(self).spec_holdings(),
    {
        &mut self.transport
    }
}

impl<T> Acceptor for TransportAcceptor<T> {
    closed spec fn spec_holdings(&self) -> Seq<Holding> {
        self.holdings@
    }

    fn holdings(&self) -> (held: &[Holding]) {
        self.holdings.as_slice()
    }
}

/// The engine that serves a connection.
#[derive(Clone, Copy, Debug, PartialEq, Eq, Structural)]
pub enum Protocol {
    /// HTTP/1.x over a byte stream.
    Http1,
    /// HTTP/2 over a byte stream.
    Http2,
    /// HTTP/3 over QUIC.
    Http3,
}

/// The engines of the protocols that a server speaks, with their settings.
#[derive(Clone, Copy, Debug, PartialEq, Eq, Structural)]
pub struct HttpBuilder {
    /// The settings for HTTP/3.
    pub quinn: quinn::Builder,
}

impl HttpBuilder {
    /// The engines with the settings they start with.
    pub fn new() -> (builder: Self)
        ensures
            builder.quinn == (quinn::Builder {
                enable_webtransport: true,
                enable_connect: true,
                enable_datagram: true,
                max_webtransport_sessions: 1,
                send_grease: true,
            }),
    {
        HttpBuilder { quinn: quinn::Builder::new() }
    }

    /// The engine that serves a connection on which `version` was
    /// negotiated: that of HTTP/2 and HTTP/3 for these, and that of HTTP/1.x
    /// for every other version.
    pub open spec fn spec_protocol_for(version: Version) -> Protocol {
        match version {
            Version::Http2 => Protocol::Http2,
            Version::Http3 => Protocol::Http3,
            _ => Protocol::Http1,
        }
    }

    /// The engine that serves a connection on which `version` was negotiated.
    pub fn protocol_for(&self, version: Version) -> (protocol: Protocol)
        ensures
            protocol == Self::spec_protocol_for(version),
    {
        match version {
            Version::Http2 => Protocol::Http2,
            Version::Http3 => Protocol::Http3,
            _ => Protocol::Http1,
        }
    }

    /// The time after which a connection of `version` is closed for want of
    /// activity: the server's, on byte streams. A connection over QUIC is
    /// not watched.
    pub fn idle_timeout_for(&self, version: Version, conn_idle_timeout: Option<Duration>) -> (timeout:
        Option<Duration>)
        ensures
            timeout == if Self::spec_protocol_for(version) == Protocol::Http3 {
                None
            } else {
                conn_idle_timeout
            },
    {
        match version {
            Version::Http3 => None,
            _ => conn_idle_timeout,
        }
    }
}

} // verus!
