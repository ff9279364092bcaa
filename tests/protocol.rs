use chefdeck::executor::{ExecAction, ExecEvent, Executor, RequestError};
use chefdeck::refresh::{
    status_is_success, IssuedTokens, Refresh, RefreshAction, RefreshError, RefreshEvent,
};
use chefdeck::session::{should_request, Session};

fn session_with(token: &str) -> Session {
    let mut s = Session::new();
    s.set(token.to_string());
    s
}

fn issued(access: &str, refresh: &str) -> IssuedTokens {
    IssuedTokens { access_token: access.to_string(), refresh_token: refresh.to_string() }
}

/// Runs a successful refresh against the session, returning the actions and
/// the secret written to the store.
fn refresh_ok(session: &mut Session, old_secret: &str, fresh: IssuedTokens) -> (usize, Option<String>) {
    let mut actions: usize = 0;
    let stored;
    let (mut refresh, first) = Refresh::start();
    assert_eq!(first, RefreshAction::LoadSecret);
    let a = refresh.step(session, RefreshEvent::SecretLoaded(Some(old_secret.to_string())));
    actions += 1;
    assert_eq!(a, RefreshAction::SendRefresh { secret: old_secret.to_string() });
    let a = refresh.step(session, RefreshEvent::Answered { status: 200, tokens: Some(fresh) });
    actions += 1;
    if let RefreshAction::StoreSecret { secret } = &a {
        stored = Some(secret.clone());
    } else {
        panic!("expected a store action, got {:?}", a);
    }
    let a = refresh.step(session, RefreshEvent::SecretStored);
    actions += 1;
    assert_eq!(a, RefreshAction::Finish(Ok(())));
    assert!(refresh.is_done());
    (actions, stored)
}

#[test]
fn session_starts_empty_and_clears() {
    let mut s = Session::new();
    assert_eq!(s.read(), None);
    assert!(!should_request(&s));
    s.set("tok".to_string());
    assert_eq!(s.read(), Some("tok".to_string()));
    assert!(should_request(&s));
    s.clear();
    assert_eq!(s.read(), None);
}

#[test]
fn status_classes() {
    assert!(status_is_success(200));
    assert!(status_is_success(204));
    assert!(status_is_success(299));
    assert!(!status_is_success(199));
    assert!(!status_is_success(300));
    assert!(!status_is_success(401));
}

#[test]
fn anonymous_success_makes_no_refresh() {
    let session = Session::new();
    let (mut exec, first) = Executor::start(&session);
    assert_eq!(first, ExecAction::Send { bearer: None });
    let a = exec.step(&session, ExecEvent::Responded(200));
    assert_eq!(a, ExecAction::Finish(Ok(200)));
    assert!(exec.is_done());
}

#[test]
fn valid_token_get_succeeds_first_attempt() {
    let session = session_with("access-1");
    let (mut exec, first) = Executor::start(&session);
    assert_eq!(first, ExecAction::Send { bearer: Some("access-1".to_string()) });
    let a = exec.step(&session, ExecEvent::Responded(200));
    assert_eq!(a, ExecAction::Finish(Ok(200)));
}

#[test]
fn unauthorized_once_then_success_refreshes_once() {
    let mut session = session_with("stale");
    let mut refreshes: usize = 0;
    let (mut exec, first) = Executor::start(&session);
    assert_eq!(first, ExecAction::Send { bearer: Some("stale".to_string()) });
    let a = exec.step(&session, ExecEvent::Responded(401));
    assert_eq!(a, ExecAction::Refresh);
    refreshes += 1;
    let (_, stored) = refresh_ok(&mut session, "secret-1", issued("access-2", "secret-2"));
    assert_eq!(stored, Some("secret-2".to_string()));
    let a = exec.step(&session, ExecEvent::Refreshed(Ok(())));
    assert_eq!(a, ExecAction::Send { bearer: Some("access-2".to_string()) });
    let a = exec.step(&session, ExecEvent::Responded(201));
    assert_eq!(a, ExecAction::Finish(Ok(201)));
    assert_eq!(refreshes, 1);
}

#[test]
fn unauthorized_twice_fails_after_one_refresh() {
    let mut session = session_with("stale");
    let (mut exec, _) = Executor::start(&session);
    assert_eq!(exec.step(&session, ExecEvent::Responded(401)), ExecAction::Refresh);
    refresh_ok(&mut session, "secret-1", issued("access-2", "secret-2"));
    assert_eq!(
        exec.step(&session, ExecEvent::Refreshed(Ok(()))),
        ExecAction::Send { bearer: Some("access-2".to_string()) }
    );
    let a = exec.step(&session, ExecEvent::Responded(401));
    assert_eq!(a, ExecAction::Finish(Err(RequestError::AuthFailed)));
    // Nothing more is asked once the request is over.
    let a = exec.step(&session, ExecEvent::Responded(401));
    assert_ne!(a, ExecAction::Refresh);
}

#[test]
fn refresh_failure_gives_auth_failed() {
    let session = session_with("stale");
    let (mut exec, _) = Executor::start(&session);
    assert_eq!(exec.step(&session, ExecEvent::Responded(401)), ExecAction::Refresh);
    let a = exec.step(&session, ExecEvent::Refreshed(Err(RefreshError::NoSecret)));
    assert_eq!(a, ExecAction::Finish(Err(RequestError::AuthFailed)));
}

#[test]
fn other_statuses_are_unexpected() {
    let session = Session::new();
    let (mut exec, _) = Executor::start(&session);
    assert_eq!(
        exec.step(&session, ExecEvent::Responded(500)),
        ExecAction::Finish(Err(RequestError::UnexpectedStatus(500)))
    );
    let (mut exec, _) = Executor::start(&session);
    assert_eq!(
        exec.step(&session, ExecEvent::Responded(403)),
        ExecAction::Finish(Err(RequestError::UnexpectedStatus(403)))
    );
}

#[test]
fn retry_with_other_status_is_unexpected() {
    let mut session = session_with("stale");
    let (mut exec, _) = Executor::start(&session);
    exec.step(&session, ExecEvent::Responded(401));
    refresh_ok(&mut session, "s", issued("a", "r"));
    exec.step(&session, ExecEvent::Refreshed(Ok(())));
    assert_eq!(
        exec.step(&session, ExecEvent::Responded(404)),
        ExecAction::Finish(Err(RequestError::UnexpectedStatus(404)))
    );
}

#[test]
fn transport_failure_is_reported() {
    let session = Session::new();
    let (mut exec, _) = Executor::start(&session);
    assert_eq!(
        exec.step(&session, ExecEvent::TransportFailed),
        ExecAction::Finish(Err(RequestError::TransportFailure))
    );
}

#[test]
fn refresh_success_installs_issued_credentials() {
    let mut session = session_with("old-access");
    let (actions, stored) = refresh_ok(&mut session, "old-secret", issued("new-access", "new-secret"));
    assert_eq!(actions, 3);
    assert_eq!(session.read(), Some("new-access".to_string()));
    assert_eq!(stored, Some("new-secret".to_string()));
    assert_ne!(stored, Some("old-secret".to_string()));
}

#[test]
fn refresh_without_secret_fails_without_call() {
    let mut session = Session::new();
    let (mut refresh, first) = Refresh::start();
    assert_eq!(first, RefreshAction::LoadSecret);
    let a = refresh.step(&mut session, RefreshEvent::SecretLoaded(None));
    assert_eq!(a, RefreshAction::Finish(Err(RefreshError::NoSecret)));
    assert_eq!(session.read(), None);
}

#[test]
fn refresh_rejected_leaves_session() {
    let mut session = session_with("keep");
    let (mut refresh, _) = Refresh::start();
    refresh.step(&mut session, RefreshEvent::SecretLoaded(Some("s".to_string())));
    let a = refresh.step(
        &mut session,
        RefreshEvent::Answered { status: 403, tokens: Some(issued("x", "y")) },
    );
    assert_eq!(a, RefreshAction::Finish(Err(RefreshError::RefreshFailed)));
    assert_eq!(session.read(), Some("keep".to_string()));
}

#[test]
fn refresh_undecodable_body_is_transport_failure() {
    let mut session = session_with("keep");
    let (mut refresh, _) = Refresh::start();
    refresh.step(&mut session, RefreshEvent::SecretLoaded(Some("s".to_string())));
    let a = refresh.step(&mut session, RefreshEvent::Answered { status: 200, tokens: None });
    assert_eq!(a, RefreshAction::Finish(Err(RefreshError::TransportFailure)));
    assert_eq!(session.read(), Some("keep".to_string()));
}

#[test]
fn refresh_store_failure_keeps_new_access_token() {
    let mut session = session_with("old");
    let (mut refresh, _) = Refresh::start();
    refresh.step(&mut session, RefreshEvent::SecretLoaded(Some("s".to_string())));
    refresh.step(&mut session, RefreshEvent::Answered { status: 200, tokens: Some(issued("new", "r")) });
    let a = refresh.step(&mut session, RefreshEvent::SecretNotStored);
    assert_eq!(a, RefreshAction::Finish(Err(RefreshError::SecretStoreFailure)));
    assert_eq!(session.read(), Some("new".to_string()));
}

#[test]
fn refresh_unreadable_store() {
    let mut session = Session::new();
    let (mut refresh, _) = Refresh::start();
    let a = refresh.step(&mut session, RefreshEvent::SecretUnreadable);
    assert_eq!(a, RefreshAction::Finish(Err(RefreshError::SecretStoreFailure)));
}

#[test]
fn error_messages() {
    assert_eq!(RequestError::AuthFailed.message(), "Failed to refresh access token");
    assert_eq!(RequestError::UnexpectedStatus(500).message(), "Unexpected status code: 500");
    assert_eq!(RequestError::TransportFailure.message(), "Request failed");
    assert_eq!(RefreshError::NoSecret.message(), "Refresh token not found");
    assert_eq!(RefreshError::RefreshFailed.message(), "Failed to refresh access token");
    assert_eq!(RefreshError::TransportFailure.message(), "Refresh request failed");
    assert_eq!(RefreshError::SecretStoreFailure.message(), "Secure storage is unavailable");
}

#[test]
fn stray_events_end_the_protocols() {
    let mut session = session_with("keep");
    let (mut refresh, _) = Refresh::start();
    let a = refresh.step(&mut session, RefreshEvent::SecretStored);
    assert_eq!(a, RefreshAction::Finish(Err(RefreshError::TransportFailure)));
    assert!(refresh.is_done());
    assert_eq!(session.read(), Some("keep".to_string()));

    let (mut exec, _) = Executor::start(&session);
    let a = exec.step(&session, ExecEvent::Refreshed(Ok(())));
    assert_eq!(a, ExecAction::Finish(Err(RequestError::TransportFailure)));
    assert!(exec.is_done());
}

#[test]
fn refresh_transport_failure() {
    let mut session = Session::new();
    let (mut refresh, _) = Refresh::start();
    refresh.step(&mut session, RefreshEvent::SecretLoaded(Some("s".to_string())));
    let a = refresh.step(&mut session, RefreshEvent::TransportFailed);
    assert_eq!(a, RefreshAction::Finish(Err(RefreshError::TransportFailure)));
    assert_eq!(session.read(), None);
}

#[test]
fn refused_resend_clears_session() {
    let mut session = session_with("stale");
    let (mut exec, _) = Executor::start(&session);
    exec.step(&session, ExecEvent::Responded(401));
    refresh_ok(&mut session, "s1", issued("fresh", "s2"));
    exec.step(&session, ExecEvent::Refreshed(Ok(())));
    let a = exec.step(&session, ExecEvent::Responded(401));
    assert_eq!(a, ExecAction::Finish(Err(RequestError::AuthFailed)));
    assert!(exec.is_done());
    assert_eq!(exec.retry_bearer, Some("fresh".to_string()));
    exec.settle(&mut session);
    assert_eq!(session.read(), None);
}

#[test]
fn refused_resend_keeps_newer_token() {
    let mut session = session_with("stale");
    let (mut exec, _) = Executor::start(&session);
    exec.step(&session, ExecEvent::Responded(401));
    refresh_ok(&mut session, "s1", issued("fresh", "s2"));
    exec.step(&session, ExecEvent::Refreshed(Ok(())));
    exec.step(&session, ExecEvent::Responded(401));
    // Another request's refresh installed a newer token meanwhile.
    session.set("newer".to_string());
    exec.settle(&mut session);
    assert_eq!(session.read(), Some("newer".to_string()));
}

#[test]
fn failed_refresh_leaves_session_on_settle() {
    let mut session = session_with("stale");
    let (mut exec, _) = Executor::start(&session);
    exec.step(&session, ExecEvent::Responded(401));
    let a = exec.step(&session, ExecEvent::Refreshed(Err(RefreshError::RefreshFailed)));
    assert_eq!(a, ExecAction::Finish(Err(RequestError::AuthFailed)));
    exec.settle(&mut session);
    assert_eq!(session.read(), Some("stale".to_string()));
}

#[test]
fn success_settle_keeps_session() {
    let mut session = session_with("tok");
    let (mut exec, _) = Executor::start(&session);
    exec.step(&session, ExecEvent::Responded(200));
    exec.settle(&mut session);
    assert_eq!(session.read(), Some("tok".to_string()));
}
