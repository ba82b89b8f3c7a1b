//! Authentication and authorization behaviour: the peer-credential
//! interceptor and the per-call guard.

use lichen::auth::{authorized, uds_interceptor, AuthInfo, AuthService, PeerCred, Request, Status};

fn creds() -> PeerCred {
    PeerCred { uid: 1000, gid: 1000, pid: Some(4242) }
}

#[test]
fn interceptor_attaches_credentials() {
    let request = Request::from_transport(Some(creds()), ());
    let granted = uds_interceptor(request).unwrap_or_else(|_| panic!("credentials were present"));
    // The attached info mirrors what the kernel reported.
    let auth = AuthService::new();
    assert!(auth.verify_request(granted, "com.aerynos.lichen.system.status").is_ok());
}

#[test]
fn interceptor_rejects_connection_without_credentials() {
    let request: Request<()> = Request::from_transport(None, ());
    match uds_interceptor(request) {
        Err(Status::Unauthenticated(m)) => {
            assert_eq!(m, "client socket did not share SO_PEERCRED, refusing connection");
        }
        _ => panic!("a connection without peer credentials must be rejected"),
    }
}

#[test]
fn verify_request_denies_unauthenticated_context() {
    let auth = AuthService::new();
    let request: Request<u32> = Request::from_transport(None, 7);
    match auth.verify_request(request, "com.aerynos.lichen.disks.list") {
        Err(Status::Unauthenticated(m)) => assert_eq!(m, "client socket unsupported"),
        _ => panic!("a request without auth info must be denied"),
    }
}

#[test]
fn verify_request_allows_authenticated_context() {
    let auth = AuthService::new();
    let request = Request::from_transport(Some(creds()), 7u32);
    let granted = uds_interceptor(request).unwrap_or_else(|_| panic!("credentials were present"));
    let back = auth
        .verify_request(granted, "com.aerynos.lichen.disks.list")
        .unwrap_or_else(|_| panic!("authenticated requests pass the stub policy"));
    assert_eq!(back.into_inner(), 7);
}

#[test]
fn guard_passes_requests_through_unchanged() {
    let auth = AuthService::new();
    let request = Request::from_transport(Some(creds()), 11u32);
    let granted = uds_interceptor(request).unwrap_or_else(|_| panic!("credentials were present"));
    let back = authorized(&auth, granted, "com.aerynos.lichen.system.status", "denied")
        .unwrap_or_else(|_| panic!("authenticated requests pass the guard"));
    assert_eq!(back.into_inner(), 11);
}

#[test]
fn guard_reports_missing_credentials_as_unauthenticated() {
    let auth = AuthService::new();
    let request: Request<()> = Request::from_transport(None, ());
    match authorized(&auth, request, "com.aerynos.lichen.system.status", "denied") {
        Err(Status::Unauthenticated(_)) => {}
        _ => panic!("the guard must surface the authentication failure"),
    }
}

#[test]
fn request_context_keeps_its_payload() {
    let request = Request::from_transport(Some(creds()), String::from("payload"));
    assert_eq!(request.get_ref(), "payload");
    assert_eq!(request.into_inner(), "payload");
}

#[test]
fn auth_info_carries_unix_credentials() {
    let request = Request::from_transport(Some(PeerCred { uid: 0, gid: 0, pid: None }), ());
    let granted = uds_interceptor(request).unwrap_or_else(|_| panic!("credentials were present"));
    // Round-trip through the guard still works for root credentials.
    let auth = AuthService::default();
    let back = auth.verify_request(granted, "com.aerynos.lichen.system.shutdown");
    assert!(back.is_ok());
    let _tagged = AuthInfo::Unix { uid: 0, gid: 0, pid: None };
}
