use vstd::prelude::*;
use crate::session::Session;

verus! {

/// Whether an HTTP status code is in the success class (2xx).
pub open spec fn is_success(status: u16) -> bool {
    200 <= status <= 299
}

/// Tests the success class (2xx) of an HTTP status code.
pub fn status_is_success(status: u16) -> (r: bool)
    ensures
        r == is_success(status),
{
    200 <= status && status <= 299
}

/// Why a credential refresh did not complete.
#[derive(Clone, Copy, Debug, PartialEq, Eq, Structural)]
pub enum RefreshError {
    /// The secret store holds no long-lived secret: the user must log in.
    NoSecret,
    /// The refresh endpoint answered with a non-success status.
    RefreshFailed,
    /// The refresh call got no usable answer (network or body decoding).
    TransportFailure,
    /// The secret store could not be read or written.
    SecretStoreFailure,
}

/// The text shown for a refresh error.
pub open spec fn refresh_error_text(e: RefreshError) -> Seq<char> {
    match e {
        RefreshError::NoSecret => "Refresh token not found"@,
        RefreshError::RefreshFailed => "Failed to refresh access token"@,
        RefreshError::TransportFailure => "Refresh request failed"@,
        RefreshError::SecretStoreFailure => "Secure storage is unavailable"@,
    }
}

impl RefreshError {
    /// The text shown for this error.
    pub fn message(&self) -> (r: String)
        ensures
            r@ == refresh_error_text(*self),
    {
        match self {
            RefreshError::NoSecret => String::from_str("Refresh token not found"),
            RefreshError::RefreshFailed => String::from_str("Failed to refresh access token"),
            RefreshError::TransportFailure => String::from_str("Refresh request failed"),
            RefreshError::SecretStoreFailure => String::from_str("Secure storage is unavailable"),
        }
    }
}

/// The credentials issued by a successful refresh.
#[derive(Clone, Debug, PartialEq, Eq)]
pub struct IssuedTokens {
    pub access_token: String,
    pub refresh_token: String,
}

/// What the driver observed after performing the last action.
#[derive(Debug, PartialEq, Eq)]
pub enum RefreshEvent {
    /// The secret store was read: the secret, or `None` where it holds no entry.
    SecretLoaded(Option<String>),
    /// Reading the secret store failed.
    SecretUnreadable,
    /// The refresh endpoint answered with `status`; `tokens` is the decoded
    /// body, or `None` where it did not decode.
    Answered { status: u16, tokens: Option<IssuedTokens> },
    /// The refresh call failed before an answer arrived.
    TransportFailed,
    /// The rotated secret was written to the secret store.
    SecretStored,
    /// Writing the rotated secret to the secret store failed.
    SecretNotStored,
}

/// What the driver performs next.
#[derive(Debug, PartialEq, Eq)]
pub enum RefreshAction {
    /// Read the long-lived secret from the secret store.
    LoadSecret,
    /// Send `secret` to the refresh endpoint.
    SendRefresh { secret: String },
    /// Replace the secret in the secret store with `secret`.
    StoreSecret { secret: String },
    /// The protocol is over, with this outcome.
    Finish(Result<(), RefreshError>),
}

#[derive(Clone, Copy, Debug, PartialEq, Eq, Structural)]
pub enum RefreshPhase {
    AwaitSecret,
    AwaitAnswer,
    AwaitStore,
    Done,
}

/// The credential refresh protocol: read the secret, exchange it for a new
/// access token and a rotated secret, install the token in the session, then
/// persist the rotated secret, in that order.
#[derive(Clone, Debug, PartialEq, Eq)]
pub struct Refresh {
    pub phase: RefreshPhase,
}

/// One step of the refresh protocol, from a phase and the session's token:
/// the next phase, the session's token afterwards, and the action.
pub open spec fn refresh_next(phase: RefreshPhase, token: Option<String>, event: RefreshEvent) -> (
    RefreshPhase,
    Option<String>,
    RefreshAction,
) {
    match (phase, event) {
        (RefreshPhase::AwaitSecret, RefreshEvent::SecretLoaded(Some(secret))) => (
            RefreshPhase::AwaitAnswer,
            token,
            RefreshAction::SendRefresh { secret },
        ),
        (RefreshPhase::AwaitSecret, RefreshEvent::SecretLoaded(None)) => (
            RefreshPhase::Done,
            token,
            RefreshAction::Finish(Err(RefreshError::NoSecret)),
        ),
        (RefreshPhase::AwaitSecret, RefreshEvent::SecretUnreadable) => (
            RefreshPhase::Done,
            token,
            RefreshAction::Finish(Err(RefreshError::SecretStoreFailure)),
        ),
        (RefreshPhase::AwaitAnswer, RefreshEvent::Answered { status, tokens }) => {
            if !is_success(status) {
                (RefreshPhase::Done, token, RefreshAction::Finish(Err(RefreshError::RefreshFailed)))
            } else {
                match tokens {
                    Some(t) => (
                        RefreshPhase::AwaitStore,
                        Some(t.access_token),
                        RefreshAction::StoreSecret { secret: t.refresh_token },
                    ),
                    None => (
                        RefreshPhase::Done,
                        token,
                        RefreshAction::Finish(Err(RefreshError::TransportFailure)),
                    ),
                }
            }
        },
        (RefreshPhase::AwaitStore, RefreshEvent::SecretStored) => (
            RefreshPhase::Done,
            token,
            RefreshAction::Finish(Ok(())),
        ),
        (RefreshPhase::AwaitStore, RefreshEvent::SecretNotStored) => (
            RefreshPhase::Done,
            token,
            RefreshAction::Finish(Err(RefreshError::SecretStoreFailure)),
        ),
        // A failed call, an answer that does not belong to the pending
        // action, or any event once the protocol is over.
        _ => (RefreshPhase::Done, token, RefreshAction::Finish(Err(RefreshError::TransportFailure))),
    }
}

impl Refresh {
    /// Starts a refresh: the first action is always to read the secret.
    pub fn start() -> (r: (Refresh, RefreshAction))
        ensures
            r.0.phase == RefreshPhase::AwaitSecret,
            r.1 == RefreshAction::LoadSecret,
    {
        (Refresh { phase: RefreshPhase::AwaitSecret }, RefreshAction::LoadSecret)
    }

    /// Whether the protocol is over.
    pub fn is_done(&self) -> (r: bool)
        ensures
            r == (self.phase == RefreshPhase::Done),
    {
        self.phase == RefreshPhase::Done
    }

    /// Feeds the outcome of the last action and returns the next one. The
    /// session is changed only where a success answer carries new tokens.
    pub fn step(&mut self, session: &mut Session, event: RefreshEvent) -> (r: RefreshAction)
        ensures
            (final(self).phase, final(session).access_token, r) == refresh_next(
                old(self).phase,
                old(session).access_token,
                event,
            ),
    {
        match (self.phase, event) {
            (RefreshPhase::AwaitSecret, RefreshEvent::SecretLoaded(Some(secret))) => {
                self.phase = RefreshPhase::AwaitAnswer;
                RefreshAction::SendRefresh { secret }
            },
            (RefreshPhase::AwaitSecret, RefreshEvent::SecretLoaded(None)) => {
                self.phase = RefreshPhase::Done;
                RefreshAction::Finish(Err(RefreshError::NoSecret))
            },
            (RefreshPhase::AwaitSecret, RefreshEvent::SecretUnreadable) => {
                self.phase = RefreshPhase::Done;
                RefreshAction::Finish(Err(RefreshError::SecretStoreFailure))
            },
            (RefreshPhase::AwaitAnswer, RefreshEvent::Answered { status, tokens }) => {
                self.phase = RefreshPhase::Done;
                if !status_is_success(status) {
                    RefreshAction::Finish(Err(RefreshError::RefreshFailed))
                } else {
                    match tokens {
                        Some(t) => {
                            session.set(t.access_token);
                            self.phase = RefreshPhase::AwaitStore;
                            RefreshAction::StoreSecret { secret: t.refresh_token }
                        },
                        None => RefreshAction::Finish(Err(RefreshError::TransportFailure)),
                    }
                }
            },
            (RefreshPhase::AwaitStore, RefreshEvent::SecretStored) => {
                self.phase = RefreshPhase::Done;
                RefreshAction::Finish(Ok(()))
            },
            (RefreshPhase::AwaitStore, RefreshEvent::SecretNotStored) => {
                self.phase = RefreshPhase::Done;
                RefreshAction::Finish(Err(RefreshError::SecretStoreFailure))
            },
            _ => {
                self.phase = RefreshPhase::Done;
                RefreshAction::Finish(Err(RefreshError::TransportFailure))
            },
        }
    }
}

/// The refresh protocol run over a sequence of events: the final phase, the
/// session's token afterwards, and the actions issued, one per event.
pub open spec fn refresh_run(phase: RefreshPhase, token: Option<String>, events: Seq<RefreshEvent>) -> (
    RefreshPhase,
    Option<String>,
    Seq<RefreshAction>,
)
    decreases events.len(),
{
    if events.len() == 0 {
        (phase, token, Seq::empty())
    } else {
        let (p, t, a) = refresh_next(phase, token, events[0]);
        let (ph2, t2, rest) = refresh_run(p, t, events.drop_first());
        (ph2, t2, seq![a] + rest)
    }
}

/// The contents of the secret store after the driver performed `actions`,
/// starting from `before`.
pub open spec fn stored_secret(before: Option<String>, actions: Seq<RefreshAction>) -> Option<String>
    decreases actions.len(),
{
    if actions.len() == 0 {
        before
    } else {
        match actions.last() {
            RefreshAction::StoreSecret { secret } => Some(secret),
            _ => stored_secret(before, actions.drop_last()),
        }
    }
}

/// A successful refresh leaves the session holding the newly issued access
/// token and the secret store holding the newly issued secret, not the one
/// that was exchanged: the secret is read, sent, answered with success and
/// new tokens, and the rotated secret is written.
pub proof fn lemma_refresh_success_installs_issued(
    token: Option<String>,
    old_secret: String,
    status: u16,
    issued: IssuedTokens,
)
    requires
        is_success(status),
    ensures
        ({
            let events = seq![
                RefreshEvent::SecretLoaded(Some(old_secret)),
                RefreshEvent::Answered { status, tokens: Some(issued) },
                RefreshEvent::SecretStored,
            ];
            let (phase, after, actions) = refresh_run(RefreshPhase::AwaitSecret, token, events);
            &&& phase == RefreshPhase::Done
            &&& actions.last() == RefreshAction::Finish(Ok(()))
            &&& after == Some(issued.access_token)
            &&& stored_secret(Some(old_secret), actions) == Some(issued.refresh_token)
            &&& actions == seq![
                RefreshAction::SendRefresh { secret: old_secret },
                RefreshAction::StoreSecret { secret: issued.refresh_token },
                RefreshAction::Finish(Ok(())),
            ]
        }),
{
    let events = seq![
        RefreshEvent::SecretLoaded(Some(old_secret)),
        RefreshEvent::Answered { status, tokens: Some(issued) },
        RefreshEvent::SecretStored,
    ];
    assert(events.drop_first() =~= seq![
        RefreshEvent::Answered { status, tokens: Some(issued) },
        RefreshEvent::SecretStored,
    ]);
    assert(events.drop_first().drop_first() =~= seq![RefreshEvent::SecretStored]);
    assert(events.drop_first().drop_first().drop_first() =~= Seq::<RefreshEvent>::empty());
    reveal_with_fuel(refresh_run, 4);
    reveal_with_fuel(stored_secret, 2);
    let (phase, after, actions) = refresh_run(RefreshPhase::AwaitSecret, token, events);
    assert(actions =~= seq![
        RefreshAction::SendRefresh { secret: old_secret },
        RefreshAction::StoreSecret { secret: issued.refresh_token },
        RefreshAction::Finish(Ok(())),
    ]);
    assert(actions.drop_last() =~= seq![
        RefreshAction::SendRefresh { secret: old_secret },
        RefreshAction::StoreSecret { secret: issued.refresh_token },
    ]);
}

proof fn lemma_run_len(phase: RefreshPhase, token: Option<String>, events: Seq<RefreshEvent>)
    ensures
        refresh_run(phase, token, events).2.len() == events.len(),
    decreases events.len(),
{
    if events.len() > 0 {
        let (p, t, a) = refresh_next(phase, token, events[0]);
        lemma_run_len(p, t, events.drop_first());
    }
}

proof fn lemma_run_from_done(token: Option<String>, events: Seq<RefreshEvent>)
    ensures
        refresh_run(RefreshPhase::Done, token, events).1 == token,
        forall|i: int|
            0 <= i < refresh_run(RefreshPhase::Done, token, events).2.len() ==> #[trigger] refresh_run(
                RefreshPhase::Done,
                token,
                events,
            ).2[i] == RefreshAction::Finish(Err(RefreshError::TransportFailure)),
    decreases events.len(),
{
    if events.len() > 0 {
        lemma_run_from_done(token, events.drop_first());
        let rest = refresh_run(RefreshPhase::Done, token, events.drop_first()).2;
        let all = refresh_run(RefreshPhase::Done, token, events).2;
        assert forall|i: int| 0 <= i < all.len() implies #[trigger] all[i] == RefreshAction::Finish(
            Err(RefreshError::TransportFailure),
        ) by {
            if i > 0 {
                assert(all[i] == rest[i - 1]);
            }
        }
    }
}

/// The last action of a run that continues after its first step.
proof fn lemma_run_last(phase: RefreshPhase, token: Option<String>, events: Seq<RefreshEvent>)
    requires
        events.len() > 1,
    ensures
        ({
            let (p, t, a) = refresh_next(phase, token, events[0]);
            &&& refresh_run(phase, token, events).2.last() == refresh_run(
                p,
                t,
                events.drop_first(),
            ).2.last()
            &&& refresh_run(phase, token, events).1 == refresh_run(p, t, events.drop_first()).1
        }),
{
    let (p, t, a) = refresh_next(phase, token, events[0]);
    lemma_run_len(p, t, events.drop_first());
}

/// A run from `Done` never ends in success.
proof fn lemma_done_never_succeeds(token: Option<String>, events: Seq<RefreshEvent>)
    requires
        events.len() > 0,
    ensures
        refresh_run(RefreshPhase::Done, token, events).2.last() != RefreshAction::Finish(Ok(())),
{
    lemma_run_len(RefreshPhase::Done, token, events);
    lemma_run_from_done(token, events);
    let acts = refresh_run(RefreshPhase::Done, token, events).2;
    assert(acts[acts.len() - 1] == RefreshAction::Finish(Err(RefreshError::TransportFailure)));
}

/// Whatever the secret store and the service answer, a refresh that ends
/// in success has installed the access token issued with a success answer,
/// and left the secret store holding the secret issued with it.
pub proof fn lemma_refresh_success_only_by_issuing(
    token: Option<String>,
    before: Option<String>,
    events: Seq<RefreshEvent>,
)
    requires
        events.len() > 0,
        refresh_run(RefreshPhase::AwaitSecret, token, events).2.last() == RefreshAction::Finish(
            Ok(()),
        ),
    ensures
        events.len() == 3,
        match events[1] {
            RefreshEvent::Answered { status, tokens: Some(issued) } => {
                let (_, after, actions) = refresh_run(RefreshPhase::AwaitSecret, token, events);
                &&& is_success(status)
                &&& after == Some(issued.access_token)
                &&& stored_secret(before, actions) == Some(issued.refresh_token)
            },
            _ => false,
        },
{
    let e1 = events.drop_first();
    let (ph1, t1, a1) = refresh_next(RefreshPhase::AwaitSecret, token, events[0]);
    if events.len() == 1 {
        assert(refresh_run(ph1, t1, e1).2 =~= Seq::<RefreshAction>::empty());
        assert(refresh_run(RefreshPhase::AwaitSecret, token, events).2 =~= seq![a1]);
        return;
    }
    lemma_run_last(RefreshPhase::AwaitSecret, token, events);
    if ph1 == RefreshPhase::Done {
        lemma_done_never_succeeds(t1, e1);
        return;
    }
    // The secret was read and sent.
    let e2 = e1.drop_first();
    let (ph2, t2, a2) = refresh_next(ph1, t1, e1[0]);
    if e1.len() == 1 {
        assert(refresh_run(ph2, t2, e2).2 =~= Seq::<RefreshAction>::empty());
        assert(refresh_run(ph1, t1, e1).2 =~= seq![a2]);
        return;
    }
    lemma_run_last(ph1, t1, e1);
    if ph2 == RefreshPhase::Done {
        lemma_done_never_succeeds(t2, e2);
        return;
    }
    // The service answered with success and new tokens.
    let e3 = e2.drop_first();
    let (ph3, t3, a3) = refresh_next(ph2, t2, e2[0]);
    if e2.len() > 1 {
        lemma_run_last(ph2, t2, e2);
        lemma_done_never_succeeds(t3, e3);
        return;
    }
    assert(e3 =~= Seq::<RefreshEvent>::empty());
    assert(refresh_run(ph2, t2, e2).2 =~= seq![a3]);
    assert(refresh_run(ph1, t1, e1).2 =~= seq![a2, a3]);
    let actions = refresh_run(RefreshPhase::AwaitSecret, token, events).2;
    assert(actions =~= seq![a1, a2, a3]);
    assert(actions.drop_last() =~= seq![a1, a2]);
    assert(events[1] == e1[0]);
    assert(refresh_run(ph2, t2, e2).1 == t3);
    assert(refresh_run(ph3, t3, e3).1 == t3);
    reveal_with_fuel(stored_secret, 3);
}

} // verus!
