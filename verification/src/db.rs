//! The durable store: transactional, exclusively-locked access to the three
//! singleton records a bot keeps between process restarts.
//!
//! The store is one SQLite database file per data directory, holding three
//! logical singletons: the session credentials, the recovery secret and the
//! stream-resumption cursor.  Its contents are modelled by [`StoreModel`]:
//! the uninterpreted function [`conn_contents`] names what the database
//! behind a connection holds, and every operation's contract says how that
//! model moves.  The model is sound only under the store's single-writer
//! discipline: the connection holds an exclusive lock on the file for the
//! lifetime of the handle, so no other process can change the contents
//! behind the model's back.

use vstd::prelude::*;
use vstd::string::StringExecFns;
use rusqlite::OptionalExtension;

verus! {

// ---------------------------------------------------------------------------
// Declarations of the embedded-database crate's types.
// ---------------------------------------------------------------------------

/// Declares rusqlite's connection handle to the verifier.  Values of it are
/// opaque here; they move only through the trusted operations below.
#[verifier::external_type_specification]
#[verifier::external_body]
pub struct ExConnection(rusqlite::Connection);

/// Declares rusqlite's error type to the verifier.  It is carried opaquely
/// inside [`StoreError::Persistence`] so the hosting application can report
/// it.
#[verifier::external_type_specification]
#[verifier::external_body]
pub struct ExRusqliteError(rusqlite::Error);

// ---------------------------------------------------------------------------
// The logical model of the store.
// ---------------------------------------------------------------------------

/// The mathematical content of a saved session row.
pub ghost struct SessionData {
    pub homeserver: Seq<char>,
    pub passphrase: Seq<char>,
    pub blob: Seq<char>,
}

/// The mathematical content of the whole store: the three logical singletons.
/// `None` means the record is absent (no row).
pub ghost struct StoreModel {
    pub session: Option<SessionData>,
    pub recovery: Option<Seq<char>>,
    pub cursor: Option<Seq<char>>,
}

impl StoreModel {
    /// The store right after a schema reset: all three records absent.
    pub open spec fn empty() -> StoreModel {
        StoreModel { session: None, recovery: None, cursor: None }
    }

    /// The store after the session row is written.
    pub open spec fn with_session(self, h: Seq<char>, p: Seq<char>, b: Seq<char>) -> StoreModel {
        StoreModel {
            session: Some(SessionData { homeserver: h, passphrase: p, blob: b }),
            ..self
        }
    }

    /// The store after the recovery secret is written.
    pub open spec fn with_recovery(self, key: Seq<char>) -> StoreModel {
        StoreModel { recovery: Some(key), ..self }
    }

    /// The store after the cursor is upserted.
    pub open spec fn with_cursor(self, token: Seq<char>) -> StoreModel {
        StoreModel { cursor: Some(token), ..self }
    }
}

/// What the database behind a connection holds, as the store's schema reads
/// it.  Left without a definition: the store's operations below are trusted
/// to move it exactly as their contracts say, and nothing else touches the
/// file while the exclusive lock is held.
pub uninterp spec fn conn_contents(conn: rusqlite::Connection) -> StoreModel;

/// A saved session as handed back to the hosting application: everything it
/// needs to rehydrate the external messaging client.
pub struct SessionRecord {
    /// The homeserver URL the session was created against.
    pub homeserver: String,
    /// The locally generated passphrase that encrypts the external client's
    /// own key storage.  It never leaves the machine.
    pub passphrase: String,
    /// The external client's serialized session, kept byte for byte.
    pub session_blob: String,
}

impl View for SessionRecord {
    type V = SessionData;

    open spec fn view(&self) -> SessionData {
        SessionData {
            homeserver: self.homeserver@,
            passphrase: self.passphrase@,
            blob: self.session_blob@,
        }
    }
}

impl DeepView for SessionRecord {
    type V = SessionData;

    open spec fn deep_view(&self) -> SessionData {
        self.view()
    }
}

// ---------------------------------------------------------------------------
// Errors.
// ---------------------------------------------------------------------------

/// What can go wrong in the store and the resume path.
#[derive(Debug)]
pub enum StoreError {
    /// The embedded database engine is older than the schema requires.
    /// Fatal; the operator should upgrade or use a bundled engine.
    EngineTooOld { version: String },
    /// Resume was attempted against a data directory that was never
    /// successfully set up: the session row is absent.
    NoSessionFound,
    /// A database operation failed.  Always fatal and never silently ignored.
    Persistence { source: rusqlite::Error },
}

// ---------------------------------------------------------------------------
// The version gate.
// ---------------------------------------------------------------------------

/// Whether version string `v` denotes an engine release at least as new as
/// `min`, under the version-comparison crate's ordering.  Left without a
/// definition here: the comparison itself is the outside crate's.
pub uninterp spec fn version_ge(v: Seq<char>, min: Seq<char>) -> bool;

/// The oldest engine release the store accepts.  Newer releases provide the
/// atomic document-encoding primitive the session schema relies on.
pub open spec fn min_engine_version() -> Seq<char> {
    "3.45.0"@
}

/// Relies on version_compare::compare_to with Cmp::Ge: the result is a
/// function of the two strings alone.  A version string the crate cannot
/// parse counts as too old, as the comparison then reports no answer.
#[verifier::external_body]
fn version_at_least(v: &str, min: &str) -> (r: bool)
    ensures
        r == version_ge(v@, min@),
{
    version_compare::compare_to(v, min, version_compare::Cmp::Ge).unwrap_or(false)
}

/// The store's version gate: accepts exactly the engine versions at least
/// [`min_engine_version`], and reports [`StoreError::EngineTooOld`] for the
/// rest.
pub fn check_engine_version(version: &str) -> (r: Result<(), StoreError>)
    ensures
        r is Ok <==> version_ge(version@, min_engine_version()),
        r matches Err(e) ==> (e matches StoreError::EngineTooOld { version: v } && v@ == version@),
{
    if version_at_least(version, "3.45.0") {
        Ok(())
    } else {
        Err(StoreError::EngineTooOld { version: String::from_str(version) })
    }
}

/// The store's file name inside a data directory.
pub open spec fn db_file_name() -> Seq<char> {
    "/matrixbot-ezlogin.sqlite3"@
}

/// The path of the store's database file inside `data_dir`.
pub fn db_path(data_dir: &str) -> (r: String)
    ensures
        r@ == data_dir@ + db_file_name(),
{
    String::from_str(data_dir).concat("/matrixbot-ezlogin.sqlite3")
}

// ---------------------------------------------------------------------------
// The store handle and its trusted core.
// ---------------------------------------------------------------------------

/// A handle on the store: one open, exclusively-locked database file.
///
/// The lock is held for the lifetime of the handle, so at most one process
/// holds a live session against a given data directory at a time.  Dropping
/// the handle (or calling [`SQLiteHelper::close`]) releases it.
pub struct SQLiteHelper {
    conn: rusqlite::Connection,
}

impl View for SQLiteHelper {
    type V = StoreModel;

    closed spec fn view(&self) -> StoreModel {
        conn_contents(self.conn)
    }
}

/// Relies on rusqlite::Connection::open_with_flags: opens the database file
/// read-write (creating it only when `allow_create` is set), in no-mutex and
/// URI mode, as a plain connection whose contents are not yet constrained.
#[verifier::external_body]
fn conn_open(path: &str, allow_create: bool) -> Result<rusqlite::Connection, rusqlite::Error> {
    let flags = if allow_create {
        rusqlite::OpenFlags::SQLITE_OPEN_READ_WRITE
            | rusqlite::OpenFlags::SQLITE_OPEN_CREATE
            | rusqlite::OpenFlags::SQLITE_OPEN_NO_MUTEX
            | rusqlite::OpenFlags::SQLITE_OPEN_URI
    } else {
        rusqlite::OpenFlags::SQLITE_OPEN_READ_WRITE
            | rusqlite::OpenFlags::SQLITE_OPEN_NO_MUTEX
            | rusqlite::OpenFlags::SQLITE_OPEN_URI
    };
    rusqlite::Connection::open_with_flags(path, flags)
}

/// Relies on rusqlite::Connection::execute_batch and SQLite's PRAGMA
/// statements: puts the connection in exclusive locking mode (the basis of
/// the single-writer discipline), write-ahead-log journalling with a fully
/// synchronous commit (so a completed write is durable before the call
/// returns), and eager checkpointing.
#[verifier::external_body]
fn apply_pragmas(conn: &rusqlite::Connection) -> Result<(), rusqlite::Error> {
    conn.execute_batch(
        "PRAGMA locking_mode = EXCLUSIVE;
PRAGMA journal_mode = WAL;
PRAGMA synchronous = FULL;
PRAGMA journal_size_limit = 0;
PRAGMA wal_autocheckpoint = 1;
PRAGMA optimize = 0x10002;",
    )
}

/// Relies on rusqlite::Connection::query_row and Row::get: asks the engine
/// for its version string.  The answer depends on the linked engine, so
/// nothing is promised of it.
#[verifier::external_body]
fn query_engine_version(conn: &rusqlite::Connection) -> Result<String, rusqlite::Error> {
    conn.query_row("SELECT sqlite_version();", (), |row| row.get(0))
}

impl SQLiteHelper {
    /// Opens (optionally creating) the store's database file, configures
    /// durability, and verifies the engine's version meets the minimum.
    ///
    /// The contents of an opened store are unknown until read; a failure is
    /// either the engine failing the version gate or a database error.
    pub fn open(path: &str, allow_create: bool) -> (r: Result<SQLiteHelper, StoreError>)
        ensures
            r matches Err(e) ==> match e {
                StoreError::EngineTooOld { version } => !version_ge(
                    version@,
                    min_engine_version(),
                ),
                StoreError::Persistence { .. } => true,
                _ => false,
            },
    {
        let conn = match conn_open(path, allow_create) {
            Ok(c) => c,
            Err(e) => {
                return Err(StoreError::Persistence { source: e });
            },
        };
        match apply_pragmas(&conn) {
            Ok(()) => (),
            Err(e) => {
                return Err(StoreError::Persistence { source: e });
            },
        }
        let version = match query_engine_version(&conn) {
            Ok(v) => v,
            Err(e) => {
                return Err(StoreError::Persistence { source: e });
            },
        };
        match check_engine_version(version.as_str()) {
            Ok(()) => Ok(SQLiteHelper { conn }),
            Err(e) => Err(e),
        }
    }

    /// Drops and recreates all three tables inside one transaction.  Used
    /// only by the bootstrap; a retried bootstrap starts from here again and
    /// overwrites whatever an earlier attempt left.
    ///
    /// The reset is atomic: on success the store holds no records at all; on
    /// failure it is unchanged.  No state in which one table exists without
    /// the others is ever observable.
    pub fn reset_schema(&mut self) -> (r: Result<(), StoreError>)
        ensures
            r is Ok ==> final(self)@ == StoreModel::empty(),
            r is Err ==> final(self)@ == old(self)@,
            r matches Err(e) ==> e is Persistence,
    {
        match self.run_reset() {
            Ok(()) => Ok(()),
            Err(e) => Err(StoreError::Persistence { source: e }),
        }
    }

    /// Writes the singleton session row.  The bootstrap calls this exactly
    /// once, right after a schema reset; the row is never updated afterwards
    /// except by a fresh bootstrap overwriting the whole schema.
    pub fn put_session(
        &mut self,
        homeserver: &str,
        passphrase: &str,
        session_blob: &str,
    ) -> (r: Result<(), StoreError>)
        ensures
            r is Ok ==> final(self)@ == old(self)@.with_session(
                homeserver@,
                passphrase@,
                session_blob@,
            ),
            r is Err ==> final(self)@ == old(self)@,
            r matches Err(e) ==> e is Persistence,
    {
        match self.run_put_session(homeserver, passphrase, session_blob) {
            Ok(()) => Ok(()),
            Err(e) => Err(StoreError::Persistence { source: e }),
        }
    }

    /// Reads the singleton session row, `None` if it is absent.
    pub fn get_session(&self) -> (r: Result<Option<SessionRecord>, StoreError>)
        ensures
            r matches Ok(opt) ==> opt.deep_view() == self@.session,
            r matches Err(e) ==> e is Persistence,
    {
        match self.run_get_session() {
            Ok(opt) => Ok(opt),
            Err(e) => Err(StoreError::Persistence { source: e }),
        }
    }

    /// Writes the singleton recovery-secret row.
    pub fn put_recovery_secret(&mut self, key: &str) -> (r: Result<(), StoreError>)
        ensures
            r is Ok ==> final(self)@ == old(self)@.with_recovery(key@),
            r is Err ==> final(self)@ == old(self)@,
            r matches Err(e) ==> e is Persistence,
    {
        match self.run_put_recovery(key) {
            Ok(()) => Ok(()),
            Err(e) => Err(StoreError::Persistence { source: e }),
        }
    }

    /// Reads the singleton recovery-secret row, `None` if it is absent.
    pub fn get_recovery_secret(&self) -> (r: Result<Option<String>, StoreError>)
        ensures
            r matches Ok(opt) ==> opt.deep_view() == self@.recovery,
            r matches Err(e) ==> e is Persistence,
    {
        match self.run_get_recovery() {
            Ok(opt) => Ok(opt),
            Err(e) => Err(StoreError::Persistence { source: e }),
        }
    }

    /// Upserts the singleton cursor row.  The write is committed durably
    /// before the call returns: a success here is a promise that a process
    /// restarted after a crash will read exactly this token.
    pub fn put_cursor(&mut self, token: &str) -> (r: Result<(), StoreError>)
        ensures
            r is Ok ==> final(self)@ == old(self)@.with_cursor(token@),
            r is Err ==> final(self)@ == old(self)@,
            r matches Err(e) ==> e is Persistence,
    {
        match self.run_put_cursor(token) {
            Ok(()) => Ok(()),
            Err(e) => Err(StoreError::Persistence { source: e }),
        }
    }

    /// Reads the singleton cursor row, `None` if it is absent.
    pub fn get_cursor(&self) -> (r: Result<Option<String>, StoreError>)
        ensures
            r matches Ok(opt) ==> opt.deep_view() == self@.cursor,
            r matches Err(e) ==> e is Persistence,
    {
        match self.run_get_cursor() {
            Ok(opt) => Ok(opt),
            Err(e) => Err(StoreError::Persistence { source: e }),
        }
    }

    /// Closes the store after a best-effort engine-level compaction hint; a
    /// failure to compact is non-fatal and is ignored.  Dropping the handle
    /// closes the store too, without the hint.
    pub fn close(self) {
        self.run_close()
    }
}

// ---------------------------------------------------------------------------
// Trusted operations on the open store.
// ---------------------------------------------------------------------------

impl SQLiteHelper {
    /// Relies on rusqlite's Connection::transaction, execute_batch (through
    /// the transaction's connection) and Transaction::commit, and on
    /// SQLite's transactional DDL: the drops and creates all take effect at
    /// the commit or not at all.  On an error the transaction's drop rolls
    /// it back (rusqlite's default drop behavior), leaving the contents
    /// unchanged.
    #[verifier::external_body]
    fn run_reset(&mut self) -> (r: Result<(), rusqlite::Error>)
        ensures
            r is Ok ==> conn_contents(final(self).conn) == StoreModel::empty(),
            r is Err ==> conn_contents(final(self).conn) == conn_contents(old(self).conn),
    {
        let tx = self.conn.transaction()?;
        tx.execute_batch(
            "DROP TABLE IF EXISTS matrix_session;
DROP TABLE IF EXISTS recovery_key;
DROP TABLE IF EXISTS sync_token;
CREATE TABLE matrix_session (id INTEGER PRIMARY KEY CHECK (id = 0), homeserver TEXT NOT NULL, passphrase TEXT NOT NULL, session TEXT NOT NULL);
CREATE TABLE recovery_key (id INTEGER PRIMARY KEY CHECK (id = 0), key TEXT NOT NULL);
CREATE TABLE sync_token (id INTEGER PRIMARY KEY CHECK (id = 0), token TEXT NOT NULL);",
        )?;
        tx.commit()
    }

    /// Relies on rusqlite::Connection::execute and SQLite's INSERT: on
    /// success the single session row holds exactly these three values; a
    /// failed statement leaves the database unchanged.
    #[verifier::external_body]
    fn run_put_session(
        &mut self,
        homeserver: &str,
        passphrase: &str,
        session_blob: &str,
    ) -> (r: Result<(), rusqlite::Error>)
        ensures
            r is Ok ==> conn_contents(final(self).conn) == conn_contents(old(self).conn).with_session(
                homeserver@,
                passphrase@,
                session_blob@,
            ),
            r is Err ==> conn_contents(final(self).conn) == conn_contents(old(self).conn),
    {
        self.conn.execute(
            "INSERT INTO matrix_session (id, homeserver, passphrase, session) VALUES (0, ?, ?, ?);",
            (homeserver, passphrase, session_blob),
        )?;
        Ok(())
    }

    /// Relies on rusqlite's Connection::query_row, Row::get and
    /// OptionalExtension::optional, and on SQLite's SELECT: the row read is
    /// the one the writes above left, unchanged byte for byte.
    #[verifier::external_body]
    fn run_get_session(&self) -> (r: Result<Option<SessionRecord>, rusqlite::Error>)
        ensures
            r matches Ok(opt) ==> opt.deep_view() == conn_contents(self.conn).session,
    {
        self.conn.query_row(
            "SELECT homeserver, passphrase, session FROM matrix_session WHERE id = 0;",
            (),
            |row| {
                Ok(SessionRecord {
                    homeserver: row.get(0)?,
                    passphrase: row.get(1)?,
                    session_blob: row.get(2)?,
                })
            },
        ).optional()
    }

    /// Relies on rusqlite::Connection::execute and SQLite's INSERT: on
    /// success the single recovery-secret row holds exactly this key; a
    /// failed statement leaves the database unchanged.
    #[verifier::external_body]
    fn run_put_recovery(&mut self, key: &str) -> (r: Result<(), rusqlite::Error>)
        ensures
            r is Ok ==> conn_contents(final(self).conn) == conn_contents(old(self).conn).with_recovery(key@),
            r is Err ==> conn_contents(final(self).conn) == conn_contents(old(self).conn),
    {
        self.conn.execute("INSERT INTO recovery_key (id, key) VALUES (0, ?);", (key,))?;
        Ok(())
    }

    /// Relies on rusqlite's Connection::query_row, Row::get and
    /// OptionalExtension::optional, and on SQLite's SELECT.
    #[verifier::external_body]
    fn run_get_recovery(&self) -> (r: Result<Option<String>, rusqlite::Error>)
        ensures
            r matches Ok(opt) ==> opt.deep_view() == conn_contents(self.conn).recovery,
    {
        self.conn.query_row(
            "SELECT key FROM recovery_key WHERE id = 0;",
            (),
            |row| row.get(0),
        ).optional()
    }

    /// Relies on rusqlite::Connection::execute and SQLite's INSERT OR
    /// REPLACE: on success the single cursor row holds exactly this token,
    /// whatever it held before, and the commit is synchronous, so the value
    /// is durable when the call returns; a failed statement leaves the
    /// database unchanged.
    #[verifier::external_body]
    fn run_put_cursor(&mut self, token: &str) -> (r: Result<(), rusqlite::Error>)
        ensures
            r is Ok ==> conn_contents(final(self).conn) == conn_contents(old(self).conn).with_cursor(token@),
            r is Err ==> conn_contents(final(self).conn) == conn_contents(old(self).conn),
    {
        self.conn.execute(
            "INSERT OR REPLACE INTO sync_token (id, token) VALUES (0, ?);",
            (token,),
        )?;
        Ok(())
    }

    /// Relies on rusqlite's Connection::query_row, Row::get and
    /// OptionalExtension::optional, and on SQLite's SELECT.
    #[verifier::external_body]
    fn run_get_cursor(&self) -> (r: Result<Option<String>, rusqlite::Error>)
        ensures
            r matches Ok(opt) ==> opt.deep_view() == conn_contents(self.conn).cursor,
    {
        self.conn.query_row(
            "SELECT token FROM sync_token WHERE id = 0;",
            (),
            |row| row.get(0),
        ).optional()
    }

    /// Relies on rusqlite::Connection::execute_batch: hands the engine a
    /// compaction hint before the connection is dropped; the result is
    /// deliberately ignored.
    #[verifier::external_body]
    fn run_close(self) {
        _ = self.conn.execute_batch("PRAGMA optimize;");
    }
}

// ---------------------------------------------------------------------------
// Laws of the model.
// ---------------------------------------------------------------------------

/// Writing a session and reading it back returns exactly the values written,
/// byte for byte: after `put_session(h, p, b)` succeeds on a store whose
/// contents are `m`, `get_session` reads back precisely `(h, p, b)`.
pub proof fn lemma_session_round_trip(m: StoreModel, h: Seq<char>, p: Seq<char>, b: Seq<char>)
    ensures
        m.with_session(h, p, b).session == Some(SessionData { homeserver: h, passphrase: p, blob: b }),
        m.with_session(h, p, b).recovery == m.recovery,
        m.with_session(h, p, b).cursor == m.cursor,
{
}

/// The cursor holds exactly the last token committed: a later upsert wholly
/// replaces an earlier one, and touches nothing else.
pub proof fn lemma_cursor_last_write_wins(m: StoreModel, t1: Seq<char>, t2: Seq<char>)
    ensures
        m.with_cursor(t1).with_cursor(t2) == m.with_cursor(t2),
        m.with_cursor(t2).cursor == Some(t2),
        m.with_cursor(t2).session == m.session,
        m.with_cursor(t2).recovery == m.recovery,
{
}

} // verus!
