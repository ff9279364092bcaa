use vstd::prelude::*;

verus! {

/// The process-wide holder of the short-lived access token.
///
/// It is `None` until a session is established, set on login or refresh and
/// cleared on logout. Callers keep it behind a lock and never hold that lock
/// across network I/O.
#[derive(Clone, Debug, PartialEq, Eq)]
pub struct Session {
    pub access_token: Option<String>,
}

impl Session {
    /// An empty session: no access token.
    pub fn new() -> (s: Session)
        ensures
            s.access_token is None,
    {
        Session { access_token: None }
    }

    /// The current access token, if any.
    pub fn read(&self) -> (r: Option<String>)
        ensures
            r == self.access_token,
    {
        match &self.access_token {
            Some(t) => Some(t.clone()),
            None => None,
        }
    }

    /// Installs a newly issued access token.
    pub fn set(&mut self, token: String)
        ensures
            final(self).access_token == Some(token),
    {
        self.access_token = Some(token);
    }

    /// Forgets the access token (logout, or an irrecoverable authorization
    /// failure).
    pub fn clear(&mut self)
        ensures
            final(self).access_token is None,
    {
        self.access_token = None;
    }
}

/// Whether a session is established, which is when local actions are
/// mirrored to the remote service.
pub fn should_request(session: &Session) -> (r: bool)
    ensures
        r == (session.access_token is Some),
{
    session.access_token.is_some()
}

} // verus!
