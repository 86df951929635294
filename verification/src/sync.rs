//! The sync cursor manager: crash-consistent resumption of the external
//! event stream.
//!
//! The manager owns a store handle and a cached copy of the cursor.  Its one
//! correctness rule: the cursor for a batch is committed durably before the
//! batch is handed onward, and the cache is updated only after the commit, so
//! a reader never observes a cursor value that is not yet durable.  If the
//! process dies before the commit the same batch is requested again on
//! restart (at-least-once); if it dies after, the batch is never re-delivered
//! (at-most-once for its side effects) — the design favours never replaying a
//! batch already marked consumed.

use vstd::prelude::*;

use crate::db::{db_path, SQLiteHelper, StoreError, StoreModel};

verus! {

/// Whether a streaming loop should keep going after a batch was processed.
#[derive(Clone, Copy, PartialEq, Eq, Structural, Debug)]
pub enum LoopCtrl {
    /// Keep pulling batches.
    Continue,
    /// Stop the loop.
    Break,
}

/// What the manager reads of an outgoing stream-continuation request: the
/// resumption token to start from, if any.  The hosting application carries
/// any transport-level settings alongside and stamps this token into its
/// request.
#[derive(Clone, Debug)]
pub struct SyncSettings {
    /// Where in the stream to resume; `None` asks the server to choose its
    /// starting point.
    pub token: Option<String>,
}

/// What the manager reads of a received batch: the resumption token the
/// server handed back with it.
#[derive(Clone, Debug)]
pub struct SyncResponse {
    /// The position just after this batch.
    pub next_batch: String,
}

/// Maintains the stream position across process restarts.
///
/// The store stays exclusively locked for the lifetime of this value, which
/// keeps a second process from consuming the same session's stream.
pub struct SyncHelper {
    store: SQLiteHelper,
    token: Option<String>,
}

impl View for SyncHelper {
    type V = StoreModel;

    closed spec fn view(&self) -> StoreModel {
        self.store@
    }
}

impl SyncHelper {
    /// The cached cursor mirrors the durable one: a reader is never shown a
    /// token that is not yet committed.
    pub closed spec fn wf(&self) -> bool {
        match self.token {
            Some(t) => self@.cursor == Some(t@),
            None => self@.cursor is None,
        }
    }

    /// Opens the store inside `data_dir` (never creating it) and seeds the
    /// cursor cache from the saved row.
    pub fn new(data_dir: &str) -> (r: Result<SyncHelper, StoreError>)
        ensures
            r matches Ok(h) ==> h.wf(),
            r matches Err(e) ==> !(e is NoSessionFound),
    {
        let path = db_path(data_dir);
        match SQLiteHelper::open(path.as_str(), false) {
            Ok(store) => Self::from_opened_db(store),
            Err(e) => Err(e),
        }
    }

    /// Builds a manager over an already-open store, seeding the cache from
    /// the saved cursor row.
    pub(crate) fn from_opened_db(store: SQLiteHelper) -> (r: Result<SyncHelper, StoreError>)
        ensures
            r matches Ok(h) ==> h.wf() && h@ == store@,
            r matches Err(e) ==> e is Persistence,
    {
        match store.get_cursor() {
            Ok(token) => Ok(SyncHelper { store, token }),
            Err(e) => Err(e),
        }
    }

    /// The saved cursor, `None` right after a fresh bootstrap.
    pub fn get_sync_token(&self) -> (r: Option<String>)
        requires
            self.wf(),
        ensures
            r.deep_view() == self@.cursor,
    {
        match &self.token {
            Some(t) => Some(t.clone()),
            None => None,
        }
    }

    /// Stores a new cursor.  The durable write completes before the cached
    /// value is updated; on failure neither changes, and the error is
    /// surfaced rather than swallowed.
    pub fn set_sync_token(&mut self, token: String) -> (r: Result<(), StoreError>)
        requires
            old(self).wf(),
        ensures
            final(self).wf(),
            r is Ok ==> final(self)@ == old(self)@.with_cursor(token@),
            r is Err ==> final(self)@ == old(self)@,
            r matches Err(e) ==> e is Persistence,
    {
        match self.store.put_cursor(token.as_str()) {
            Ok(()) => {
                self.token = Some(token);
                Ok(())
            },
            Err(e) => Err(e),
        }
    }

    /// Stamps the saved cursor onto an outgoing request.  With no cursor
    /// saved the request is returned unchanged, so the first request after a
    /// fresh bootstrap starts from the server's chosen point.
    pub fn process_sync_settings(&self, sync_settings: SyncSettings) -> (r: SyncSettings)
        requires
            self.wf(),
        ensures
            (match self@.cursor {
                Some(c) => r.token matches Some(t) && t@ == c,
                None => r == sync_settings,
            }),
    {
        match self.get_sync_token() {
            Some(t) => SyncSettings { token: Some(t) },
            None => sync_settings,
        }
    }

    /// Persists a received batch's resumption token, then reports
    /// [`LoopCtrl::Continue`] for the caller's loop.  The hosting
    /// application must call this before handing the batch to its event
    /// handlers: a success here is the promise that this batch will not be
    /// requested again after a restart.
    pub fn process_sync_response(&mut self, sync_response: &SyncResponse) -> (r: Result<
        LoopCtrl,
        StoreError,
    >)
        requires
            old(self).wf(),
        ensures
            final(self).wf(),
            r matches Ok(c) ==> c == LoopCtrl::Continue && final(self)@ == old(self)@.with_cursor(
                sync_response.next_batch@,
            ),
            r is Err ==> final(self)@ == old(self)@,
            r matches Err(e) ==> e is Persistence,
    {
        match self.set_sync_token(sync_response.next_batch.clone()) {
            Ok(()) => Ok(LoopCtrl::Continue),
            Err(e) => Err(e),
        }
    }
}

} // verus!
