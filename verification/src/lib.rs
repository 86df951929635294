//! Bootstrap and resume support for an unattended bot that holds a long-lived
//! encrypted session with a messaging server.
//!
//! The crate covers the parts of that job that are worth stating precisely:
//!
//! * a single-writer, crash-safe store for the three records a bot must keep
//!   between process restarts (session credentials, recovery secret, stream
//!   cursor), backed by an embedded SQLite database file ([`SQLiteHelper`]);
//! * the bootstrap state machine that creates a fresh session, decides between
//!   recovering a server-side backup and creating a new one, and persists the
//!   results;
//! * the resume path that rehydrates a saved session without human
//!   interaction;
//! * the cursor manager that persists the stream-resumption token before a
//!   batch is handed to application logic.
//!
//! Network calls, terminal interaction and file management belong to the
//! hosting application: the bootstrap state machine hands it action values and
//! consumes event values in return, so every decision the bootstrap makes is
//! in verified code while the I/O stays outside.

mod auth;
mod db;
mod sync;

pub use auth::{
    login, resume_session, session_or_error, SetupAction, SetupConfig, SetupError,
    SetupEvent, SetupFlow, SetupState,
};
pub use db::{check_engine_version, StoreError, SQLiteHelper, SessionData, SessionRecord, StoreModel};
pub use sync::{LoopCtrl, SyncHelper, SyncResponse, SyncSettings};
