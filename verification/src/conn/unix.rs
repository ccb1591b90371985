//! Listening on a Unix domain socket.

use vstd::prelude::*;

use crate::conn::holding::{Accepted, Holding, Scheme, SocketAddr, Version};
use crate::conn::Acceptor;

verus! {

/// Builds an acceptor on a Unix domain socket, whose file can be given
/// permissions and an owner once it exists.
#[derive(Debug, PartialEq, Eq)]
pub struct UnixListener<T> {
    path: T,
    permissions: Option<u32>,
    owner: Option<(Option<u32>, Option<u32>)>,
}

/// One step of binding a Unix domain socket.
#[derive(Clone, Copy, Debug, PartialEq, Eq, Structural)]
pub enum BindStep {
    /// Bind the socket at the listener's path.
    Bind,
    /// Set the mode bits of the socket file.
    SetPermissions(u32),
    /// Set the owner of the socket file: the user, the group, or both.
    Chown(Option<u32>, Option<u32>),
}

/// Why a listener could not be bound.
#[derive(Debug, PartialEq, Eq)]
pub enum BindError {
    /// The step failed, for the given reason.
    Failed(BindStep, String),
}

/// The steps that bind a socket which is to have `permissions` and `owner`:
/// the bind itself, then the permissions if any, then the owner if any.
pub open spec fn spec_bind_steps(
    permissions: Option<u32>,
    owner: Option<(Option<u32>, Option<u32>)>,
) -> Seq<BindStep> {
    let bind = seq![BindStep::Bind];
    let with_permissions = match permissions {
        Some(mode) => bind.push(BindStep::SetPermissions(mode)),
        None => bind,
    };
    match owner {
        Some((uid, gid)) => with_permissions.push(BindStep::Chown(uid, gid)),
        None => with_permissions,
    }
}

impl<T> UnixListener<T> {
    /// The path of the socket.
    pub closed spec fn spec_path(&self) -> T {
        self.path
    }

    /// The mode bits that the socket file is to have, if any were asked for.
    pub closed spec fn spec_permissions(&self) -> Option<u32> {
        self.permissions
    }

    /// The owner that the socket file is to have, if one was asked for.
    pub closed spec fn spec_owner(&self) -> Option<(Option<u32>, Option<u32>)> {
        self.owner
    }

    /// A listener on the socket at `path`, which keeps the permissions and
    /// the owner that the system gives it.
    pub fn new(path: T) -> (listener: Self)
        ensures
            listener.spec_path() == path,
            listener.spec_permissions() is None,
            listener.spec_owner() is None,
    {
        UnixListener { path, permissions: None, owner: None }
    }

    /// Sets the mode bits that the socket file gets when it is bound, or
    /// takes them back with `None`.
    pub fn permissions(self, permissions: Option<u32>) -> (listener: Self)
        ensures
            listener.spec_path() == self.spec_path(),
            listener.spec_permissions() == permissions,
            listener.spec_owner() == self.spec_owner(),
    {
        UnixListener { path: self.path, permissions, owner: self.owner }
    }

    /// Sets the owner that the socket file gets when it is bound. `None` for
    /// the user or the group leaves that one as it is.
    pub fn owner(self, uid: Option<u32>, gid: Option<u32>) -> (listener: Self)
        ensures
            listener.spec_path() == self.spec_path(),
            listener.spec_permissions() == self.spec_permissions(),
            listener.spec_owner() == Some((uid, gid)),
    {
        UnixListener { path: self.path, permissions: self.permissions, owner: Some((uid, gid)) }
    }

    /// The path of the socket.
    pub fn path(&self) -> (path: &T)
        ensures
            *path == self.spec_path(),
    {
        &self.path
    }

    /// The steps that bind the socket, in the order in which they are to be
    /// taken. The first that fails ends the attempt.
    pub fn bind_steps(&self) -> (steps: Vec<BindStep>)
        ensures
            steps@ == spec_bind_steps(self.spec_permissions(), self.spec_owner()),
    {
        let mut steps: Vec<BindStep> = Vec::new();
        steps.push(BindStep::Bind);
        if let Some(mode) = self.permissions {
            steps.push(BindStep::SetPermissions(mode));
        }
        if let Some((uid, gid)) = self.owner {
            steps.push(BindStep::Chown(uid, gid));
        }
        steps
    }

    /// Concludes the attempt to bind. `failure` is the first step that
    /// failed, if any did, with its reason; `local_addr` is the address the
    /// socket is bound to.
    pub fn try_bind(self, failure: Option<(BindStep, String)>, local_addr: SocketAddr) -> (bound:
        Result<UnixAcceptor, BindError>)
        ensures
            match failure {
                Some((step, reason)) => bound == Err::<UnixAcceptor, BindError>(
                    BindError::Failed(step, reason),
                ),
                None => bound is Ok && spec_is_unix_holdings(
                    bound->Ok_0.spec_holdings(),
                    local_addr,
                ),
            },
    {
        match failure {
            Some((step, reason)) => Err(BindError::Failed(step, reason)),
            None => Ok(UnixAcceptor::new(local_addr)),
        }
    }
}

/// Whether `holdings` is what an acceptor on the Unix domain socket at
/// `local_addr` holds: that one endpoint, which speaks HTTP/1.1 in plain text.
pub open spec fn spec_is_unix_holdings(holdings: Seq<Holding>, local_addr: SocketAddr) -> bool {
    &&& holdings.len() == 1
    &&& holdings[0].local_addr == local_addr
    &&& holdings[0].http_versions@ == seq![Version::Http11]
    &&& holdings[0].http_scheme == Scheme::Http
}

/// Accepts the connections that arrive on a Unix domain socket.
#[derive(Debug, PartialEq, Eq)]
pub struct UnixAcceptor {
    holdings: Vec<Holding>,
}

impl UnixAcceptor {
    /// What holds of every acceptor: it holds exactly one endpoint.
    #[verifier::type_invariant]
    spec fn inv(&self) -> bool {
        self.holdings@.len() == 1
    }

    /// The acceptor of the socket that is bound to `local_addr`.
    pub fn new(local_addr: SocketAddr) -> (acceptor: Self)
        ensures
            spec_is_unix_holdings(acceptor.spec_holdings(), local_addr),
    {
        let mut versions: Vec<Version> = Vec::new();
        versions.push(Version::Http11);
        let mut holdings: Vec<Holding> = Vec::new();
        holdings.push(Holding { local_addr, http_versions: versions, http_scheme: Scheme::Http });
        UnixAcceptor { holdings }
    }

    /// Describes a connection that has arrived from `remote_addr`: it came
    /// in at the address of the socket and speaks HTTP/1.1 in plain text.
    pub fn accepted<C>(&self, conn: C, remote_addr: SocketAddr) -> (accepted: Accepted<C>)
        ensures
            accepted.conn == conn,
            accepted.local_addr == self.spec_holdings()[0].local_addr,
            accepted.remote_addr == remote_addr,
            accepted.http_version == Version::Http11,
            accepted.http_scheme == Scheme::Http,
    {
        proof {
            use_type_invariant(self);
        }
        Accepted {
            conn,
            local_addr: self.holdings[0].local_addr.clone(),
            remote_addr,
            http_version: Version::Http11,
            http_scheme: Scheme::Http,
        }
    }
}

impl Acceptor for UnixAcceptor {
    closed spec fn spec_holdings(&self) -> Seq<Holding> {
        self.holdings@
    }

    fn holdings(&self) -> (held: &[Holding]) {
        self.holdings.as_slice()
    }
}

} // verus!
