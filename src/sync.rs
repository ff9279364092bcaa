use vstd::prelude::*;
use crate::executor::RequestError;
use crate::records::{DownloadedRecipe, Recipe};
use crate::reconcile::{
    fresh_records, json_string_array, linked_ids, linked_cloud_ids, other_than_body,
    other_than_text, plan_inserts, plans, texts, unlinked_positions, upload_candidates, LocalInsert,
};
use crate::refresh::RefreshError;
use crate::session::{should_request, Session};

verus! {

/// Why a sync did not complete.
#[derive(Clone, Copy, Debug, PartialEq, Eq, Structural)]
pub enum SyncError {
    /// No session, and it could not be refreshed.
    Refresh(RefreshError),
    /// An authenticated call failed, or its body could not be encoded or
    /// decoded.
    Request(RequestError),
    /// The local store could not be read.
    LocalStore,
    /// Inserting stopped early; the first `inserted` records stand.
    Partial { inserted: usize },
}

/// What the driver observed after performing the last action.
#[derive(Debug, PartialEq, Eq)]
pub enum SyncEvent {
    /// The credential refresh protocol ended with this outcome.
    Refreshed(Result<(), RefreshError>),
    /// The identity call ended: the user's name, or the error.
    Identified(Result<String, RequestError>),
    /// The user's local records, or `None` where the store failed.
    LocalLoaded(Option<Vec<Recipe>>),
    /// The set-difference call ended: the remote-only records, or the error.
    RemoteAnswered(Result<Vec<DownloadedRecipe>, RequestError>),
    /// The inserts were applied in order; `applied` of them succeeded and
    /// `complete` says whether all did.
    Inserted { applied: usize, complete: bool },
}

/// What the driver performs next. No action updates or removes a local
/// record: the only local write is an insert.
#[derive(Debug, PartialEq, Eq)]
pub enum SyncAction {
    /// Run the credential refresh protocol.
    Refresh,
    /// Resolve the signed-in user through an authenticated call.
    Identify,
    /// Load the local records that belong to `username`.
    LoadLocal { username: String },
    /// Send the set-difference query with this body through an
    /// authenticated call.
    FetchRemoteOnly { body: String },
    /// Insert these records locally, in order, stopping at the first failure.
    InsertLocal { records: Vec<LocalInsert> },
    /// The sync is over, with this outcome.
    Finish(Result<(), SyncError>),
}

#[derive(Clone, Copy, Debug, PartialEq, Eq, Structural)]
pub enum SyncPhase {
    AwaitRefresh,
    AwaitIdentity,
    AwaitLocal,
    AwaitRemote,
    AwaitInsert,
    Done,
}

/// The sync reconciler: resolve the user (refreshing first where there is
/// no session), load the local records, ask the remote side for the records
/// not linked locally, and insert those that are new. Any failure ends it;
/// inserts already applied stand. The local records without a remote
/// counterpart are kept in `unlinked` for an upload pass.
#[derive(Debug, PartialEq, Eq)]
pub struct Reconciler {
    pub phase: SyncPhase,
    pub username: String,
    pub linked: Vec<String>,
    pub unlinked: Vec<usize>,
    pub expected: usize,
}

/// How an event that does not answer the pending action ends the sync.
pub open spec fn stray() -> SyncAction {
    SyncAction::Finish(Err(SyncError::Request(RequestError::TransportFailure)))
}

impl Reconciler {
    /// Starts a sync: with a session, by resolving the user; without one,
    /// by refreshing it first, before any network call.
    pub fn start(session: &Session) -> (r: (Reconciler, SyncAction))
        ensures
            session.access_token is Some ==> r.0.phase == SyncPhase::AwaitIdentity && r.1
                is Identify,
            session.access_token is None ==> r.0.phase == SyncPhase::AwaitRefresh && r.1
                is Refresh,
            r.0.linked@.len() == 0,
            r.0.unlinked@.len() == 0,
    {
        let phase = if should_request(session) {
            SyncPhase::AwaitIdentity
        } else {
            SyncPhase::AwaitRefresh
        };
        let sync = Reconciler {
            phase,
            username: String::new(),
            linked: Vec::new(),
            unlinked: Vec::new(),
            expected: 0,
        };
        if should_request(session) {
            (sync, SyncAction::Identify)
        } else {
            (sync, SyncAction::Refresh)
        }
    }

    /// Whether the sync is over.
    pub fn is_done(&self) -> (r: bool)
        ensures
            r == (self.phase == SyncPhase::Done),
    {
        self.phase == SyncPhase::Done
    }

    /// Feeds the outcome of the last action and returns the next one.
    pub fn step(&mut self, event: SyncEvent) -> (r: SyncAction)
        ensures
            old(self).phase == SyncPhase::AwaitRefresh ==> match event {
                SyncEvent::Refreshed(Ok(())) => final(self).phase == SyncPhase::AwaitIdentity
                    && r is Identify,
                SyncEvent::Refreshed(Err(e)) => final(self).phase == SyncPhase::Done && r
                    == SyncAction::Finish(Err(SyncError::Refresh(e))),
                _ => final(self).phase == SyncPhase::Done && r == stray(),
            },
            old(self).phase == SyncPhase::AwaitIdentity ==> match event {
                SyncEvent::Identified(Ok(name)) => final(self).phase == SyncPhase::AwaitLocal
                    && final(self).username == name && r == (SyncAction::LoadLocal {
                    username: name,
                }),
                SyncEvent::Identified(Err(e)) => final(self).phase == SyncPhase::Done && r
                    == SyncAction::Finish(Err(SyncError::Request(e))),
                _ => final(self).phase == SyncPhase::Done && r == stray(),
            },
            old(self).phase == SyncPhase::AwaitLocal ==> match event {
                SyncEvent::LocalLoaded(Some(local)) => {
                    &&& final(self).linked@ == linked_ids(local@)
                    &&& final(self).unlinked@ == unlinked_positions(local@)
                    &&& final(self).username == old(self).username
                    &&& final(self).phase == SyncPhase::AwaitRemote
                    &&& r matches SyncAction::FetchRemoteOnly { body } && body@ == other_than_text(
                        json_string_array(texts(linked_ids(local@))),
                    )
                },
                SyncEvent::LocalLoaded(None) => final(self).phase == SyncPhase::Done && r
                    == SyncAction::Finish(Err(SyncError::LocalStore)),
                _ => final(self).phase == SyncPhase::Done && r == stray(),
            },
            old(self).phase == SyncPhase::AwaitRemote ==> match event {
                SyncEvent::RemoteAnswered(Ok(remote)) => {
                    let fresh = fresh_records(old(self).linked@, remote@);
                    if fresh.len() == 0 {
                        final(self).phase == SyncPhase::Done && r == SyncAction::Finish(Ok(()))
                    } else {
                        &&& final(self).phase == SyncPhase::AwaitInsert
                        &&& final(self).expected == fresh.len()
                        &&& r matches SyncAction::InsertLocal { records } && plans(
                            records@,
                            fresh,
                            old(self).username,
                        )
                    }
                },
                SyncEvent::RemoteAnswered(Err(e)) => final(self).phase == SyncPhase::Done && r
                    == SyncAction::Finish(Err(SyncError::Request(e))),
                _ => final(self).phase == SyncPhase::Done && r == stray(),
            },
            old(self).phase == SyncPhase::AwaitInsert ==> match event {
                SyncEvent::Inserted { applied, complete } => final(self).phase == SyncPhase::Done
                    && r == (if complete && applied == old(self).expected {
                    SyncAction::Finish(Ok(()))
                } else {
                    SyncAction::Finish(Err(SyncError::Partial { inserted: applied }))
                }),
                _ => final(self).phase == SyncPhase::Done && r == stray(),
            },
            old(self).phase == SyncPhase::Done ==> final(self).phase == SyncPhase::Done && r
                == stray(),
    {
        let phase = self.phase;
        self.phase = SyncPhase::Done;
        match (phase, event) {
            (SyncPhase::AwaitRefresh, SyncEvent::Refreshed(Ok(()))) => {
                self.phase = SyncPhase::AwaitIdentity;
                SyncAction::Identify
            },
            (SyncPhase::AwaitRefresh, SyncEvent::Refreshed(Err(e))) => {
                SyncAction::Finish(Err(SyncError::Refresh(e)))
            },
            (SyncPhase::AwaitIdentity, SyncEvent::Identified(Ok(name))) => {
                self.phase = SyncPhase::AwaitLocal;
                self.username = name.clone();
                SyncAction::LoadLocal { username: name }
            },
            (SyncPhase::AwaitIdentity, SyncEvent::Identified(Err(e))) => {
                SyncAction::Finish(Err(SyncError::Request(e)))
            },
            (SyncPhase::AwaitLocal, SyncEvent::LocalLoaded(Some(local))) => {
                self.linked = linked_cloud_ids(&local);
                self.unlinked = upload_candidates(&local);
                let body = other_than_body(&self.linked);
                self.phase = SyncPhase::AwaitRemote;
                SyncAction::FetchRemoteOnly { body }
            },
            (SyncPhase::AwaitLocal, SyncEvent::LocalLoaded(None)) => {
                SyncAction::Finish(Err(SyncError::LocalStore))
            },
            (SyncPhase::AwaitRemote, SyncEvent::RemoteAnswered(Ok(remote))) => {
                let records = plan_inserts(&self.linked, remote, &self.username);
                if records.len() == 0 {
                    SyncAction::Finish(Ok(()))
                } else {
                    self.phase = SyncPhase::AwaitInsert;
                    self.expected = records.len();
                    SyncAction::InsertLocal { records }
                }
            },
            (SyncPhase::AwaitRemote, SyncEvent::RemoteAnswered(Err(e))) => {
                SyncAction::Finish(Err(SyncError::Request(e)))
            },
            (SyncPhase::AwaitInsert, SyncEvent::Inserted { applied, complete }) => {
                if complete && applied == self.expected {
                    SyncAction::Finish(Ok(()))
                } else {
                    SyncAction::Finish(Err(SyncError::Partial { inserted: applied }))
                }
            },
            _ => SyncAction::Finish(Err(SyncError::Request(RequestError::TransportFailure))),
        }
    }
}

} // verus!
