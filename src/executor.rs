use vstd::prelude::*;
use crate::refresh::{is_success, status_is_success, RefreshError};
use crate::session::Session;
use crate::text::{decimal, decimal_text};

verus! {

/// The status by which the remote service says "unauthorized".
pub const UNAUTHORIZED: u16 = 401;

/// Why an authenticated request did not succeed.
#[derive(Clone, Copy, Debug, PartialEq, Eq, Structural)]
pub enum RequestError {
    /// The request was still unauthorized after one refresh, or the refresh
    /// itself failed: the session is no longer valid.
    AuthFailed,
    /// The service answered with this non-success status.
    UnexpectedStatus(u16),
    /// The request got no answer (network or encoding failure).
    TransportFailure,
}

/// The text shown for a request error.
pub open spec fn request_error_text(e: RequestError) -> Seq<char> {
    match e {
        RequestError::AuthFailed => "Failed to refresh access token"@,
        RequestError::UnexpectedStatus(code) => "Unexpected status code: "@ + decimal(code as nat),
        RequestError::TransportFailure => "Request failed"@,
    }
}

impl RequestError {
    /// The text shown for this error.
    pub fn message(&self) -> (r: String)
        ensures
            r@ == request_error_text(*self),
    {
        match self {
            RequestError::AuthFailed => String::from_str("Failed to refresh access token"),
            RequestError::UnexpectedStatus(code) => {
                let mut text = String::from_str("Unexpected status code: ");
                let digits = decimal_text(*code as u32);
                text.append(digits.as_str());
                text
            },
            RequestError::TransportFailure => String::from_str("Request failed"),
        }
    }
}

/// What the driver observed after performing the last action.
#[derive(Debug, PartialEq, Eq)]
pub enum ExecEvent {
    /// The request was answered with this status.
    Responded(u16),
    /// The request failed before an answer arrived.
    TransportFailed,
    /// The credential refresh protocol ended with this outcome.
    Refreshed(Result<(), RefreshError>),
}

/// What the driver performs next.
#[derive(Debug, PartialEq, Eq)]
pub enum ExecAction {
    /// Build and send the request, with `Authorization: Bearer <token>`
    /// where `bearer` holds a token and anonymously otherwise.
    Send { bearer: Option<String> },
    /// Run the credential refresh protocol.
    Refresh,
    /// The request is over: the success status of the answer to hand to the
    /// caller, or the error.
    Finish(Result<u16, RequestError>),
}

#[derive(Clone, Copy, Debug, PartialEq, Eq, Structural)]
pub enum ExecPhase {
    AwaitFirst,
    AwaitRefresh,
    AwaitRetry,
    /// The resend was answered "unauthorized" too: the request is over and
    /// the token it carried was refused.
    Refused,
    Done,
}

/// The authenticated request executor: send with the current access token;
/// on "unauthorized", refresh once and resend once. It is the same for every
/// verb and body: the driver builds the request, the executor decides.
#[derive(Clone, Debug, PartialEq, Eq)]
pub struct Executor {
    pub phase: ExecPhase,
    /// The token the resend carried, once it is sent.
    pub retry_bearer: Option<String>,
}

/// Two optional tokens with the same text, or both absent.
pub open spec fn same_token(a: Option<String>, b: Option<String>) -> bool {
    match (a, b) {
        (Some(x), Some(y)) => x@ == y@,
        (None, None) => true,
        _ => false,
    }
}

/// How an answer ends the request when no retry is pending.
pub open spec fn answer_outcome(status: u16) -> Result<u16, RequestError> {
    if is_success(status) {
        Ok(status)
    } else {
        Err(RequestError::UnexpectedStatus(status))
    }
}

/// One step of the executor, from a phase and the session's token at that
/// moment: the next phase and the action.
pub open spec fn exec_next(phase: ExecPhase, token: Option<String>, event: ExecEvent) -> (
    ExecPhase,
    ExecAction,
) {
    match (phase, event) {
        (ExecPhase::AwaitFirst, ExecEvent::Responded(status)) => {
            if status == UNAUTHORIZED {
                (ExecPhase::AwaitRefresh, ExecAction::Refresh)
            } else {
                (ExecPhase::Done, ExecAction::Finish(answer_outcome(status)))
            }
        },
        (ExecPhase::AwaitRefresh, ExecEvent::Refreshed(Ok(()))) => (
            ExecPhase::AwaitRetry,
            ExecAction::Send { bearer: token },
        ),
        (ExecPhase::AwaitRefresh, ExecEvent::Refreshed(Err(_))) => (
            ExecPhase::Done,
            ExecAction::Finish(Err(RequestError::AuthFailed)),
        ),
        (ExecPhase::AwaitRetry, ExecEvent::Responded(status)) => {
            if status == UNAUTHORIZED {
                (ExecPhase::Refused, ExecAction::Finish(Err(RequestError::AuthFailed)))
            } else {
                (ExecPhase::Done, ExecAction::Finish(answer_outcome(status)))
            }
        },
        // A failed send, an event that does not answer the pending action,
        // or any event once the request is over.
        _ => (ExecPhase::Done, ExecAction::Finish(Err(RequestError::TransportFailure))),
    }
}

/// Whether this event, in this phase, makes the executor resend.
pub open spec fn resends(phase: ExecPhase, event: ExecEvent) -> bool {
    phase == ExecPhase::AwaitRefresh && (event matches ExecEvent::Refreshed(Ok(_)))
}

impl Executor {
    /// Starts a request: the first action sends it with the session's
    /// current token, or anonymously where there is none.
    pub fn start(session: &Session) -> (r: (Executor, ExecAction))
        ensures
            r.0.phase == ExecPhase::AwaitFirst,
            r.0.retry_bearer is None,
            r.1 == (ExecAction::Send { bearer: session.access_token }),
    {
        (
            Executor { phase: ExecPhase::AwaitFirst, retry_bearer: None },
            ExecAction::Send { bearer: session.read() },
        )
    }

    /// Whether the request is over.
    pub fn is_done(&self) -> (r: bool)
        ensures
            r == (self.phase == ExecPhase::Done || self.phase == ExecPhase::Refused),
    {
        self.phase == ExecPhase::Done || self.phase == ExecPhase::Refused
    }

    /// Settles the session once the request is over. Where the resend was
    /// refused, the session is no longer valid and is cleared, but only if
    /// it still holds the token that was refused: a token that a concurrent
    /// refresh installed meanwhile stays. Every other ending, a failed
    /// refresh included, leaves the session untouched.
    pub fn settle(&self, session: &mut Session)
        ensures
            final(session).access_token == (if self.phase == ExecPhase::Refused && same_token(
                old(session).access_token,
                self.retry_bearer,
            ) {
                None
            } else {
                old(session).access_token
            }),
    {
        if self.phase == ExecPhase::Refused {
            let same = match (&session.access_token, &self.retry_bearer) {
                (Some(current), Some(refused)) => *current == *refused,
                (None, None) => true,
                _ => false,
            };
            if same {
                session.clear();
            }
        }
    }

    /// Feeds the outcome of the last action and returns the next one. The
    /// session is read again after a refresh, never written.
    pub fn step(&mut self, session: &Session, event: ExecEvent) -> (r: ExecAction)
        ensures
            (final(self).phase, r) == exec_next(old(self).phase, session.access_token, event),
            final(self).retry_bearer == (if resends(old(self).phase, event) {
                session.access_token
            } else {
                old(self).retry_bearer
            }),
    {
        match (self.phase, event) {
            (ExecPhase::AwaitFirst, ExecEvent::Responded(status)) => {
                if status == UNAUTHORIZED {
                    self.phase = ExecPhase::AwaitRefresh;
                    ExecAction::Refresh
                } else {
                    self.phase = ExecPhase::Done;
                    ExecAction::Finish(Self::outcome(status))
                }
            },
            (ExecPhase::AwaitRefresh, ExecEvent::Refreshed(Ok(()))) => {
                self.phase = ExecPhase::AwaitRetry;
                self.retry_bearer = session.read();
                ExecAction::Send { bearer: session.read() }
            },
            (ExecPhase::AwaitRefresh, ExecEvent::Refreshed(Err(_))) => {
                self.phase = ExecPhase::Done;
                ExecAction::Finish(Err(RequestError::AuthFailed))
            },
            (ExecPhase::AwaitRetry, ExecEvent::Responded(status)) => {
                self.phase = ExecPhase::Done;
                if status == UNAUTHORIZED {
                    self.phase = ExecPhase::Refused;
                    ExecAction::Finish(Err(RequestError::AuthFailed))
                } else {
                    ExecAction::Finish(Self::outcome(status))
                }
            },
            _ => {
                self.phase = ExecPhase::Done;
                ExecAction::Finish(Err(RequestError::TransportFailure))
            },
        }
    }

    fn outcome(status: u16) -> (r: Result<u16, RequestError>)
        ensures
            r == answer_outcome(status),
    {
        if status_is_success(status) {
            Ok(status)
        } else {
            Err(RequestError::UnexpectedStatus(status))
        }
    }
}

/// The executor run over a sequence of steps, each the session's token at
/// that moment and the event: the final phase and the actions issued.
pub open spec fn exec_run(phase: ExecPhase, steps: Seq<(Option<String>, ExecEvent)>) -> (
    ExecPhase,
    Seq<ExecAction>,
)
    decreases steps.len(),
{
    if steps.len() == 0 {
        (phase, Seq::empty())
    } else {
        let (p, a) = exec_next(phase, steps[0].0, steps[0].1);
        let (ph2, rest) = exec_run(p, steps.drop_first());
        (ph2, seq![a] + rest)
    }
}

/// How many refreshes a sequence of actions performs.
pub open spec fn refresh_count(actions: Seq<ExecAction>) -> nat
    decreases actions.len(),
{
    if actions.len() == 0 {
        0
    } else {
        (if actions[0] is Refresh { 1nat } else { 0nat }) + refresh_count(actions.drop_first())
    }
}

/// Whatever the service answers, one request performs at most one refresh,
/// and none once it is past its first answer.
pub proof fn lemma_at_most_one_refresh(phase: ExecPhase, steps: Seq<(Option<String>, ExecEvent)>)
    ensures
        refresh_count(exec_run(phase, steps).1) <= (if phase == ExecPhase::AwaitFirst {
            1nat
        } else {
            0nat
        }),
    decreases steps.len(),
{
    if steps.len() > 0 {
        let (p, a) = exec_next(phase, steps[0].0, steps[0].1);
        lemma_at_most_one_refresh(p, steps.drop_first());
        let rest = exec_run(p, steps.drop_first()).1;
        assert((seq![a] + rest).drop_first() =~= rest);
        assert((seq![a] + rest)[0] == a);
    }
}

/// Without a token, a request that the service answers with success is
/// sent anonymously and finishes with that answer, without any refresh.
pub proof fn lemma_anonymous_success_no_refresh(status: u16)
    requires
        is_success(status),
    ensures
        ({
            let (phase, actions) = exec_run(
                ExecPhase::AwaitFirst,
                seq![(None::<String>, ExecEvent::Responded(status))],
            );
            &&& phase == ExecPhase::Done
            &&& actions == seq![ExecAction::Finish(Ok(status))]
            &&& refresh_count(actions) == 0
        }),
{
    reveal_with_fuel(exec_run, 2);
    reveal_with_fuel(refresh_count, 2);
    let steps = seq![(None::<String>, ExecEvent::Responded(status))];
    assert(steps.drop_first() =~= Seq::<(Option<String>, ExecEvent)>::empty());
    let actions = exec_run(ExecPhase::AwaitFirst, steps).1;
    assert(actions =~= seq![ExecAction::Finish(Ok(status))]);
    assert(actions.drop_first() =~= Seq::<ExecAction>::empty());
}

/// A request answered "unauthorized" once and then with success returns the
/// success answer after exactly one refresh, resending with the token that
/// the refresh installed.
pub proof fn lemma_unauthorized_once_then_success(
    first: Option<String>,
    refreshed: Option<String>,
    status: u16,
)
    requires
        is_success(status),
    ensures
        ({
            let (phase, actions) = exec_run(
                ExecPhase::AwaitFirst,
                seq![
                    (first, ExecEvent::Responded(UNAUTHORIZED)),
                    (refreshed, ExecEvent::Refreshed(Ok(()))),
                    (refreshed, ExecEvent::Responded(status)),
                ],
            );
            &&& phase == ExecPhase::Done
            &&& actions == seq![
                ExecAction::Refresh,
                ExecAction::Send { bearer: refreshed },
                ExecAction::Finish(Ok(status)),
            ]
            &&& refresh_count(actions) == 1
        }),
{
    let steps = seq![
        (first, ExecEvent::Responded(UNAUTHORIZED)),
        (refreshed, ExecEvent::Refreshed(Ok(()))),
        (refreshed, ExecEvent::Responded(status)),
    ];
    lemma_three_steps(steps);
    reveal_with_fuel(exec_run, 4);
    let actions = exec_run(ExecPhase::AwaitFirst, steps).1;
    assert(actions =~= seq![
        ExecAction::Refresh,
        ExecAction::Send { bearer: refreshed },
        ExecAction::Finish(Ok(status)),
    ]);
    lemma_count_three(actions);
}

/// A request answered "unauthorized" twice in a row fails with
/// `AuthFailed` after exactly one refresh, ending refused.
pub proof fn lemma_unauthorized_twice_fails(first: Option<String>, refreshed: Option<String>)
    ensures
        ({
            let (phase, actions) = exec_run(
                ExecPhase::AwaitFirst,
                seq![
                    (first, ExecEvent::Responded(UNAUTHORIZED)),
                    (refreshed, ExecEvent::Refreshed(Ok(()))),
                    (refreshed, ExecEvent::Responded(UNAUTHORIZED)),
                ],
            );
            &&& phase == ExecPhase::Refused
            &&& actions == seq![
                ExecAction::Refresh,
                ExecAction::Send { bearer: refreshed },
                ExecAction::Finish(Err(RequestError::AuthFailed)),
            ]
            &&& refresh_count(actions) == 1
        }),
{
    let steps = seq![
        (first, ExecEvent::Responded(UNAUTHORIZED)),
        (refreshed, ExecEvent::Refreshed(Ok(()))),
        (refreshed, ExecEvent::Responded(UNAUTHORIZED)),
    ];
    lemma_three_steps(steps);
    reveal_with_fuel(exec_run, 4);
    let actions = exec_run(ExecPhase::AwaitFirst, steps).1;
    assert(actions =~= seq![
        ExecAction::Refresh,
        ExecAction::Send { bearer: refreshed },
        ExecAction::Finish(Err(RequestError::AuthFailed)),
    ]);
    lemma_count_three(actions);
}

proof fn lemma_three_steps(steps: Seq<(Option<String>, ExecEvent)>)
    requires
        steps.len() == 3,
    ensures
        steps.drop_first() =~= seq![steps[1], steps[2]],
        steps.drop_first().drop_first() =~= seq![steps[2]],
        steps.drop_first().drop_first().drop_first() =~= Seq::<(Option<String>, ExecEvent)>::empty(),
{
}

proof fn lemma_count_three(actions: Seq<ExecAction>)
    requires
        actions.len() == 3,
    ensures
        refresh_count(actions) == (if actions[0] is Refresh { 1nat } else { 0nat }) + (
        if actions[1] is Refresh {
            1nat
        } else {
            0nat
        }) + (if actions[2] is Refresh { 1nat } else { 0nat }),
{
    reveal_with_fuel(refresh_count, 4);
    assert(actions.drop_first() =~= seq![actions[1], actions[2]]);
    assert(actions.drop_first().drop_first() =~= seq![actions[2]]);
    assert(actions.drop_first().drop_first().drop_first() =~= Seq::<ExecAction>::empty());
}

} // verus!
