//! Peer-credential authentication and per-call authorization.
//!
//! A connection is accepted only if the transport could read the kernel's
//! record of who connected (`SO_PEERCRED` on a Unix domain socket). The
//! interceptor runs once per accepted connection, before any request on it is
//! dispatched; a connection without verifiable peer identity never reaches
//! application logic. Each privileged call is additionally gated by
//! [`AuthService::verify_request`], the seam where a policy engine can later
//! be inserted.

use vstd::prelude::*;

verus! {

/// Kernel-reported credentials of the process on the other end of a Unix
/// domain socket, read by the transport at accept time. Application code
/// never constructs these for a live connection; it only consumes them.
pub struct PeerCred {
    /// User id of the connecting process.
    pub uid: u32,
    /// Group id of the connecting process.
    pub gid: u32,
    /// Process id, when the kernel reports one.
    pub pid: Option<i32>,
}

/// Authentication information attached to a connection's request context,
/// tagged by transport kind.
pub enum AuthInfo {
    /// Unix domain socket transport.
    Unix {
        /// User id of the peer.
        uid: u32,
        /// Group id of the peer.
        gid: u32,
        /// Process id of the peer, when known.
        pid: Option<i32>,
    },
}

/// Failure status surfaced to the remote caller.
#[derive(Debug)]
pub enum Status {
    /// The connection carries no verifiable peer identity.
    Unauthenticated(String),
    /// The peer is known but the action is not allowed.
    PermissionDenied(String),
    /// A requested entity does not exist.
    NotFound(String),
    /// An internal failure whose detail is logged server-side.
    Internal(String),
}

impl Status {
    /// The message carried by this status.
    pub fn message(&self) -> (r: &String)
        ensures
            r == self.spec_message(),
    {
        match self {
            Status::Unauthenticated(m) => m,
            Status::PermissionDenied(m) => m,
            Status::NotFound(m) => m,
            Status::Internal(m) => m,
        }
    }

    /// The message carried by this status, as a specification value.
    pub open spec fn spec_message(&self) -> String {
        match self {
            Status::Unauthenticated(m) => *m,
            Status::PermissionDenied(m) => *m,
            Status::NotFound(m) => *m,
            Status::Internal(m) => *m,
        }
    }

    /// Whether this status is a permission denial.
    pub fn is_permission_denied(&self) -> (r: bool)
        ensures
            r == (self is PermissionDenied),
    {
        match self {
            Status::PermissionDenied(_) => true,
            _ => false,
        }
    }
}

/// An inbound request plus its connection-scoped context: what the transport
/// reported about the peer, and what the interceptor attached.
pub struct Request<T> {
    peer_cred: Option<PeerCred>,
    auth: Option<AuthInfo>,
    body: T,
}

impl<T> Request<T> {
    /// The peer credentials the transport recorded at accept time.
    pub closed spec fn spec_peer(&self) -> Option<PeerCred> {
        self.peer_cred
    }

    /// The authentication information attached by the interceptor.
    pub closed spec fn spec_auth(&self) -> Option<AuthInfo> {
        self.auth
    }

    /// The request payload.
    pub closed spec fn spec_body(&self) -> T {
        self.body
    }

    /// Builds the request context for one inbound call. Only the transport
    /// layer calls this; `peer_cred` must be exactly what the kernel reported
    /// for the connection, and nothing is authenticated yet.
    pub fn from_transport(peer_cred: Option<PeerCred>, body: T) -> (r: Request<T>)
        ensures
            r.spec_peer() == peer_cred,
            r.spec_auth() is None,
            r.spec_body() == body,
    {
        Request { peer_cred, auth: None, body }
    }

    /// Consumes the request, yielding its payload.
    pub fn into_inner(self) -> (r: T)
        ensures
            r == self.spec_body(),
    {
        self.body
    }

    /// Borrows the request payload.
    pub fn get_ref(&self) -> (r: &T)
        ensures
            r == self.spec_body(),
    {
        &self.body
    }
}

/// Interceptor run once per accepted connection, before any request on it is
/// dispatched: attaches the kernel-reported peer credentials to the request
/// context, or rejects the connection outright when there are none.
///
/// A connection without peer credentials is never handed to a handler: the
/// caller observes an authentication failure instead.
pub fn uds_interceptor<T>(request: Request<T>) -> (r: Result<Request<T>, Status>)
    ensures
        request.spec_peer() matches Some(c) ==> (r matches Ok(granted)
            && granted.spec_auth() == Some(AuthInfo::Unix { uid: c.uid, gid: c.gid, pid: c.pid })
            && granted.spec_peer() == request.spec_peer()
            && granted.spec_body() == request.spec_body()),
        request.spec_peer() is None ==> (r matches Err(s) && s matches Status::Unauthenticated(m)
            && m@ == "client socket did not share SO_PEERCRED, refusing connection"@),
{
    match &request.peer_cred {
        Some(creds) => {
            let auth = AuthInfo::Unix { uid: creds.uid, gid: creds.gid, pid: creds.pid };
            Ok(Request { peer_cred: request.peer_cred, auth: Some(auth), body: request.body })
        }
        None => Err(Status::Unauthenticated(
            "client socket did not share SO_PEERCRED, refusing connection".to_owned(),
        )),
    }
}

/// Per-call authorization decisions.
pub struct AuthService {}

impl AuthService {
    /// Creates the authorization service.
    pub fn new() -> (s: Self) {
        Self {}
    }

    /// Verifies one incoming request against the action it wants to perform.
    ///
    /// Denies whenever no authentication information is attached. When
    /// credentials are present it currently allows unconditionally: this is
    /// the documented placeholder where a policy decision keyed by
    /// `action_id` is later inserted.
    pub fn verify_request<T>(&self, request: Request<T>, action_id: &str) -> (r: Result<
        Request<T>,
        Status,
    >)
        ensures
            request.spec_auth() is Some ==> r == Ok::<Request<T>, Status>(request),
            request.spec_auth() is None ==> (r matches Err(s) && s matches Status::Unauthenticated(
                m,
            ) && m@ == "client socket unsupported"@),
    {
        match &request.auth {
            Some(AuthInfo::Unix { uid: _, gid: _, pid: _ }) => Ok(request),
            None => Err(Status::Unauthenticated("client socket unsupported".to_owned())),
        }
    }
}

impl Default for AuthService {
    /// Same as [`AuthService::new`].
    fn default() -> (s: Self) {
        Self::new()
    }
}

/// Explicit per-method authorization guard: the first thing every handler
/// body does. A permission denial is replaced by the pre-declared safe
/// `denial_message`, so internal denial detail is never surfaced to the
/// caller; any other failure passes through unchanged.
pub fn authorized<T>(
    auth: &AuthService,
    request: Request<T>,
    action_id: &str,
    denial_message: &str,
) -> (r: Result<Request<T>, Status>)
    ensures
        request.spec_auth() is Some ==> r == Ok::<Request<T>, Status>(request),
        request.spec_auth() is None ==> (r matches Err(s) && s is Unauthenticated),
        r is Ok <==> request.spec_auth() is Some,
{
    match auth.verify_request(request, action_id) {
        Ok(granted) => Ok(granted),
        Err(denied) => {
            if denied.is_permission_denied() {
                Err(Status::PermissionDenied(denial_message.to_owned()))
            } else {
                Err(denied)
            }
        }
    }
}

} // verus!
