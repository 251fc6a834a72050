//! The watch mechanism: one session per subscriber, which re-reads the
//! store at each poll tick, compares against the value last observed, and
//! decides what the caller must deliver on the subscriber's channel. The
//! timer, the channel and the background task stay with the caller; every
//! decision is made here.

use vstd::prelude::*;

use crate::record::Todo;
use crate::store::get_spec;
use crate::store::StoreError;
use crate::store::TodoStore;

verus! {

/// Seconds a watch task sleeps between two poll ticks: the detection
/// latency floor, and the window within which successive updates coalesce.
pub const POLL_INTERVAL_SECS: u64 = 1;

/// Where a session stands in its lifecycle. There is no way back to
/// `Active` once a session has terminated: both terminal states are
/// absorbing, since [`WatchSession::poll`] and
/// [`WatchSession::disconnect`] demand an active session.
#[derive(Clone, Copy, Debug, PartialEq, Eq, Structural)]
pub enum SessionState {
    /// Polling; may still emit events.
    Active,
    /// The watched record was removed; one terminal not-found event has
    /// been handed out and nothing follows it.
    TerminatedNotFound,
    /// The subscriber stopped reading; the session ended silently.
    TerminatedDisconnected,
}

/// What the caller of [`WatchSession::poll`] must do with this tick.
#[derive(Debug)]
pub enum PollAction {
    /// The record changed: deliver this new value and keep polling.
    Emit(Todo),
    /// The record is gone: deliver one terminal not-found error and stop.
    Removed,
    /// Nothing changed: deliver nothing and keep polling.
    NoChange,
}

/// One subscriber's live watch: the watched key, the value last observed,
/// and the lifecycle state. The output channel stays with the caller.
#[derive(Debug)]
pub struct WatchSession {
    pub watched_id: u32,
    pub last_observed: Todo,
    pub state: SessionState,
}

impl TodoStore {
    /// Begin a watch: refuse an unknown identifier outright, otherwise
    /// capture the record as it stands now as the initial snapshot.
    pub fn watch(&self, id: u32) -> (r: Result<WatchSession, StoreError>)
        ensures
            match get_spec(self@, id) {
                Ok(tv) => r matches Ok(s) && s.watched_id == id && s.last_observed@ == tv
                    && s.state == SessionState::Active,
                Err(e) => r == Err::<WatchSession, StoreError>(e),
            },
    {
        match self.get(id) {
            Ok(todo) => Ok(
                WatchSession {
                    watched_id: id,
                    last_observed: todo,
                    state: SessionState::Active,
                },
            ),
            Err(e) => Err(e),
        }
    }
}

impl WatchSession {
    /// One poll tick: re-read the store and decide what to deliver.
    ///
    /// A removed record yields `Removed` and ends the session; a record
    /// whose value differs from the last observed one yields exactly that
    /// current value, so updates between two ticks coalesce and the last
    /// value wins; an unchanged record yields nothing. At most one event
    /// comes out of one tick.
    pub fn poll(&mut self, store: &TodoStore) -> (r: PollAction)
        requires
            old(self).state == SessionState::Active,
        ensures
            final(self).watched_id == old(self).watched_id,
            match get_spec(store@, old(self).watched_id) {
                Err(_) => {
                    &&& r is Removed
                    &&& final(self).state == SessionState::TerminatedNotFound
                    &&& final(self).last_observed@ == old(self).last_observed@
                },
                Ok(tv) => if tv != old(self).last_observed@ {
                    &&& r matches PollAction::Emit(t) && t@ == tv
                    &&& final(self).state == SessionState::Active
                    &&& final(self).last_observed@ == tv
                } else {
                    &&& r is NoChange
                    &&& final(self).state == SessionState::Active
                    &&& final(self).last_observed@ == old(self).last_observed@
                },
            },
    {
        match store.get(self.watched_id) {
            Err(_) => {
                self.state = SessionState::TerminatedNotFound;
                PollAction::Removed
            },
            Ok(current) => {
                if !current.same_as(&self.last_observed) {
                    self.last_observed = current.duplicate();
                    PollAction::Emit(current)
                } else {
                    PollAction::NoChange
                }
            },
        }
    }

    /// The subscriber went away (a send on its channel failed): end the
    /// session silently, without touching the store again.
    pub fn disconnect(&mut self)
        requires
            old(self).state == SessionState::Active,
        ensures
            final(self).state == SessionState::TerminatedDisconnected,
            final(self).watched_id == old(self).watched_id,
            final(self).last_observed@ == old(self).last_observed@,
    {
        self.state = SessionState::TerminatedDisconnected;
    }
}

} // verus!
