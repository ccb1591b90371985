//! TLS termination over any acceptor, with an identity that can be replaced
//! while the server runs.

use vstd::prelude::*;

use crate::conn::holding::{copy_versions, has_version, Holding, HoldingView, Scheme, Version};
use crate::conn::{drain_latest, Acceptor, ConfigSource};

verus! {

/// `versions`, with `wanted` added at the end unless it is there already.
pub open spec fn spec_with_version(versions: Seq<Version>, wanted: Version) -> Seq<Version> {
    if versions.contains(wanted) {
        versions
    } else {
        versions.push(wanted)
    }
}

/// The versions that an endpoint speaks once TLS is put in front of it:
/// those it spoke before, and HTTP/1.1 and HTTP/2, which the handshake can
/// negotiate.
pub open spec fn spec_tls_versions(versions: Seq<Version>) -> Seq<Version> {
    spec_with_version(spec_with_version(versions, Version::Http11), Version::Http2)
}

/// What an endpoint holds once TLS is put in front of it: the same address,
/// the versions of [`spec_tls_versions`], and the scheme `https`.
pub open spec fn spec_tls_holding(inner: HoldingView) -> HoldingView {
    HoldingView {
        local_addr: inner.local_addr,
        http_versions: spec_tls_versions(inner.http_versions),
        http_scheme: Scheme::Https,
    }
}

/// Whether `outer` is, holding by holding, what `inner` becomes behind TLS.
pub open spec fn spec_is_tls_of(outer: Seq<Holding>, inner: Seq<Holding>) -> bool {
    &&& outer.len() == inner.len()
    &&& forall|i: int| 0 <= i < inner.len() ==> (#[trigger] outer[i])@ == spec_tls_holding(inner[i]@)
}

/// Adds `wanted` to `versions` unless it is there already.
pub fn with_version(versions: Vec<Version>, wanted: Version) -> (out: Vec<Version>)
    ensures
        out@ == spec_with_version(versions@, wanted),
{
    let mut out = versions;
    if !has_version(&out, wanted) {
        out.push(wanted);
    }
    out
}

/// What the endpoint of `inner` holds once TLS is put in front of it.
pub fn tls_holding(inner: &Holding) -> (outer: Holding)
    ensures
        outer@ == spec_tls_holding(inner@),
        outer.wf(),
{
    let versions = copy_versions(&inner.http_versions);
    let versions = with_version(versions, Version::Http11);
    let versions = with_version(versions, Version::Http2);
    Holding {
        local_addr: inner.local_addr.clone(),
        http_versions: versions,
        http_scheme: Scheme::Https,
    }
}

/// What the endpoints of `inner` hold once TLS is put in front of them.
pub fn tls_holdings(inner: &[Holding]) -> (outer: Vec<Holding>)
    ensures
        spec_is_tls_of(outer@, inner@),
        forall|i: int| 0 <= i < outer@.len() ==> (#[trigger] outer@[i]).wf(),
{
    let mut outer: Vec<Holding> = Vec::new();
    let mut i: usize = 0;
    while i < inner.len()
        invariant
            i <= inner.len(),
            outer@.len() == i,
            forall|j: int| 0 <= j < i ==> (#[trigger] outer@[j])@ == spec_tls_holding(inner@[j]@),
            forall|j: int| 0 <= j < i ==> (#[trigger] outer@[j]).wf(),
        decreases inner.len() - i,
    {
        outer.push(tls_holding(&inner[i]));
        i += 1;
    }
    outer
}

/// Putting TLS in front of an endpoint twice holds what doing it once holds.
pub proof fn lemma_tls_holding_idempotent(inner: HoldingView)
    ensures
        spec_tls_holding(spec_tls_holding(inner)) == spec_tls_holding(inner),
{
    let once = spec_tls_versions(inner.http_versions);
    let first = spec_with_version(inner.http_versions, Version::Http11);
    assert(first.contains(Version::Http11)) by {
        if !inner.http_versions.contains(Version::Http11) {
            assert(first[first.len() - 1] == Version::Http11);
        }
    }
    assert(once.contains(Version::Http11)) by {
        let k = choose|k: int| 0 <= k < first.len() && first[k] == Version::Http11;
        assert(once[k] == Version::Http11);
    }
    assert(once.contains(Version::Http2)) by {
        if !first.contains(Version::Http2) {
            assert(once[once.len() - 1] == Version::Http2);
        }
    }
    assert(spec_tls_versions(once) == once);
}

/// Builds an acceptor that terminates TLS in front of the acceptor that
/// `inner` binds, with the identities that `config_stream` delivers.
pub struct NativeTlsListener<S, T> {
    config_stream: S,
    inner: T,
}

impl<S, T> NativeTlsListener<S, T> {
    /// The configuration source.
    pub closed spec fn spec_config_stream(&self) -> S {
        self.config_stream
    }

    /// The listener that is wrapped.
    pub closed spec fn spec_inner(&self) -> T {
        self.inner
    }

    /// A listener over `inner` that takes its identities from `config_stream`.
    pub fn new(config_stream: S, inner: T) -> (listener: Self)
        ensures
            listener.spec_config_stream() == config_stream,
            listener.spec_inner() == inner,
    {
        NativeTlsListener { config_stream, inner }
    }

    /// Takes the inner listener out, to be bound, and leaves the listener
    /// that waits for what the binding comes to.
    pub fn take_inner(self) -> (parts: (NativeTlsListener<S, ()>, T))
        ensures
            parts.0.spec_config_stream() == self.spec_config_stream(),
            parts.1 == self.spec_inner(),
    {
        (NativeTlsListener { config_stream: self.config_stream, inner: () }, self.inner)
    }

    /// Concludes the binding, given what binding the inner listener has
    /// come to: its failure is the failure of the whole, and it is not
    /// tried again; its acceptor is put behind TLS, without an identity yet.
    pub fn try_bind<A: Acceptor, E, I>(self, bound: Result<A, E>) -> (acceptor: Result<
        NativeTlsAcceptor<S, A, I>,
        E,
    >) where S: ConfigSource
        ensures
            match (bound, acceptor) {
                (Ok(inner), Ok(outer)) => {
                    &&& outer.spec_config_stream() == self.spec_config_stream()
                    &&& outer.spec_inner() == inner
                    &&& outer.spec_identity() is None
                    &&& spec_is_tls_of(outer.spec_own_holdings(), inner.spec_holdings())
                },
                (Err(reason), Err(passed)) => passed == reason,
                _ => false,
            },
    {
        match bound {
            Ok(inner) => Ok(NativeTlsAcceptor::new(self.config_stream, inner)),
            Err(reason) => Err(reason),
        }
    }

    /// Takes the listener apart: the configuration source, and the inner
    /// listener, which is to be bound first.
    pub fn into_parts(self) -> (parts: (S, T))
        ensures
            parts.0 == self.spec_config_stream(),
            parts.1 == self.spec_inner(),
    {
        (self.config_stream, self.inner)
    }
}

/// Why no connection can be accepted.
#[derive(Clone, Copy, Debug, PartialEq, Eq, Structural)]
pub enum AcceptError {
    /// No identity has been loaded yet, so no connection could be secured.
    ConfigNotReady,
}

/// What a look at the configuration source has led to.
#[derive(Clone, Copy, Debug, PartialEq, Eq, Structural)]
pub enum Reload {
    /// No update was ready.
    NoUpdate,
    /// The first identity has been loaded.
    Loaded,
    /// The identity has been replaced.
    Changed,
    /// The latest update could not be turned into an identity; what was
    /// active before stays active.
    Rejected,
}

/// The identity that is active after the latest update has been compiled
/// with the result `compiled`, where `current` was active before.
pub open spec fn spec_installed<I, E>(current: Option<I>, compiled: Result<I, E>) -> Option<I> {
    match compiled {
        Ok(identity) => Some(identity),
        Err(_) => current,
    }
}

/// What is reported of such an update.
pub open spec fn spec_reload<I, E>(current: Option<I>, compiled: Result<I, E>) -> Reload {
    match compiled {
        Ok(_) => if current is Some {
            Reload::Changed
        } else {
            Reload::Loaded
        },
        Err(_) => Reload::Rejected,
    }
}

/// Accepts connections from an inner acceptor and secures each with the
/// identity that is active at that moment.
pub struct NativeTlsAcceptor<S, T, I> {
    config_stream: S,
    inner: T,
    holdings: Vec<Holding>,
    tls_acceptor: Option<I>,
}

impl<S: ConfigSource, T: Acceptor, I> NativeTlsAcceptor<S, T, I> {
    /// The configuration source.
    pub closed spec fn spec_config_stream(&self) -> S {
        self.config_stream
    }

    /// The acceptor that is wrapped.
    pub closed spec fn spec_inner(&self) -> T {
        self.inner
    }

    /// The identity that is active, if any.
    pub closed spec fn spec_identity(&self) -> Option<I> {
        self.tls_acceptor
    }

    /// The holdings of this layer.
    pub closed spec fn spec_own_holdings(&self) -> Seq<Holding> {
        self.holdings@
    }

    /// An acceptor over `inner` that takes its identities from
    /// `config_stream`. It starts without an identity.
    pub fn new(config_stream: S, inner: T) -> (acceptor: Self)
        ensures
            acceptor.spec_config_stream() == config_stream,
            acceptor.spec_inner() == inner,
            acceptor.spec_identity() is None,
            spec_is_tls_of(acceptor.spec_own_holdings(), inner.spec_holdings()),
            forall|i: int|
                0 <= i < acceptor.spec_own_holdings().len() ==> (
                #[trigger] acceptor.spec_own_holdings()[i]).wf(),
    {
        let holdings = tls_holdings(inner.holdings());
        NativeTlsAcceptor { config_stream, inner, holdings, tls_acceptor: None }
    }

    /// The acceptor that is wrapped.
    pub fn inner(&self) -> (inner: &T)
        ensures
            *inner == self.spec_inner(),
    {
        &self.inner
    }

    /// The acceptor that is wrapped, to be driven.
    pub fn inner_mut(&mut self) -> (inner: &mut T)
        ensures
            *inner == old(self).spec_inner(),
            final(self).spec_inner() == *final(inner),
            final(self).spec_config_stream() == old(self).spec_config_stream(),
            final(self).spec_identity() == old(self).spec_identity(),
            final(self).spec_own_holdings() == old(self).spec_own_holdings(),
    {
        &mut self.inner
    }

    /// The configuration source, to be fed.
    pub fn config_stream_mut(&mut self) -> (source: &mut S)
        ensures
            *source == old(self).spec_config_stream(),
            final(self).spec_config_stream() == *final(source),
            final(self).spec_inner() == old(self).spec_inner(),
            final(self).spec_identity() == old(self).spec_identity(),
            final(self).spec_own_holdings() == old(self).spec_own_holdings(),
    {
        &mut self.config_stream
    }

    /// Whether an identity has been loaded.
    pub fn is_ready(&self) -> (ready: bool)
        ensures
            ready == self.spec_identity() is Some,
    {
        self.tls_acceptor.is_some()
    }

    /// Looks at the configuration source, which never waits, and makes the
    /// latest update that is ready the active identity. `compile` turns an
    /// update into an identity, or fails.
    ///
    /// Of several updates only the last is compiled. Where it fails, the
    /// identity that was active stays active.
    pub fn refresh_identity<E, F: FnOnce(S::Config) -> Result<I, E>>(&mut self, compile: F) -> (outcome:
        Reload)
        requires
            forall|update: S::Config| call_requires(compile, (update,)),
        ensures
            final(self).spec_config_stream().pending().len() == 0,
            final(self).spec_inner() == old(self).spec_inner(),
            final(self).spec_own_holdings() == old(self).spec_own_holdings(),
            old(self).spec_config_stream().pending().len() == 0 ==> {
                &&& outcome == Reload::NoUpdate
                &&& final(self).spec_identity() == old(self).spec_identity()
            },
            old(self).spec_config_stream().pending().len() > 0 ==> exists|compiled: Result<I, E>|
                {
                    &&& call_ensures(
                        compile,
                        (old(self).spec_config_stream().pending().last(),),
                        compiled,
                    )
                    &&& final(self).spec_identity() == spec_installed(
                        old(self).spec_identity(),
                        compiled,
                    )
                    &&& outcome == spec_reload(old(self).spec_identity(), compiled)
                },
    {
        match drain_latest(&mut self.config_stream) {
            None => Reload::NoUpdate,
            Some(update) => {
                let compiled = compile(update);
                let ghost witness = compiled;
                let outcome = match compiled {
                    Ok(identity) => {
                        let outcome = if self.tls_acceptor.is_some() {
                            Reload::Changed
                        } else {
                            Reload::Loaded
                        };
                        self.tls_acceptor = Some(identity);
                        outcome
                    },
                    Err(_) => Reload::Rejected,
                };
                assert(final(self).spec_identity() == spec_installed(
                    old(self).spec_identity(),
                    witness,
                ));
                outcome
            },
        }
    }

    /// The first part of accepting a connection: looks at the configuration
    /// source as [`Self::refresh_identity`] does, and then tells whether a
    /// connection can be accepted at all. None can while no identity has
    /// ever been loaded.
    pub fn prepare_accept<E, F: FnOnce(S::Config) -> Result<I, E>>(&mut self, compile: F) -> (ready:
        Result<Reload, AcceptError>)
        requires
            forall|update: S::Config| call_requires(compile, (update,)),
        ensures
            final(self).spec_config_stream().pending().len() == 0,
            final(self).spec_inner() == old(self).spec_inner(),
            final(self).spec_own_holdings() == old(self).spec_own_holdings(),
            ready is Ok <==> final(self).spec_identity() is Some,
            ready matches Err(reason) ==> reason == AcceptError::ConfigNotReady,
            old(self).spec_config_stream().pending().len() == 0 ==> {
                &&& final(self).spec_identity() == old(self).spec_identity()
                &&& ready matches Ok(outcome) ==> outcome == Reload::NoUpdate
            },
            old(self).spec_config_stream().pending().len() > 0 ==> exists|compiled: Result<I, E>|
                {
                    &&& call_ensures(
                        compile,
                        (old(self).spec_config_stream().pending().last(),),
                        compiled,
                    )
                    &&& final(self).spec_identity() == spec_installed(
                        old(self).spec_identity(),
                        compiled,
                    )
                    &&& ready matches Ok(outcome) ==> outcome == spec_reload(
                        old(self).spec_identity(),
                        compiled,
                    )
                },
    {
        let outcome = self.refresh_identity(compile);
        if self.is_ready() {
            Ok(outcome)
        } else {
            Err(AcceptError::ConfigNotReady)
        }
    }

    /// The identity with which the next connection is to be secured, or the
    /// reason why none can be accepted.
    pub fn begin_accept(&self) -> (ready: Result<&I, AcceptError>)
        ensures
            match ready {
                Ok(identity) => self.spec_identity() == Some(*identity),
                Err(reason) => self.spec_identity() is None && reason == AcceptError::ConfigNotReady,
            },
    {
        match &self.tls_acceptor {
            Some(identity) => Ok(identity),
            None => Err(AcceptError::ConfigNotReady),
        }
    }
}

impl<S: ConfigSource, T: Acceptor, I> Acceptor for NativeTlsAcceptor<S, T, I> {
    open spec fn spec_holdings(&self) -> Seq<Holding> {
        self.spec_own_holdings()
    }

    fn holdings(&self) -> (held: &[Holding]) {
        self.holdings.as_slice()
    }
}

} // verus!
