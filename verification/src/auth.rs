//! The bootstrap orchestrator and the resume path.
//!
//! Creating a usable session takes a multi-step, branching, possibly
//! human-in-the-loop exchange with the external messaging client: log in
//! with a password, persist the session row, then either recover the
//! server-side encrypted backup with a human-held key or reset the
//! cryptographic identity and create a new backup.  All of that long-latency
//! work (network calls, terminal prompts, file deletion) happens outside
//! this crate; every decision happens here.
//!
//! [`SetupFlow`] is the state machine: the hosting application performs each
//! [`SetupAction`] it is handed, reports the result as a [`SetupEvent`], and
//! calls [`SetupFlow::step`] for the next action.  The transition relation
//! [`step_rel`] is the machine's whole specification; `step` is proved to
//! follow it.  The rollback policy — any failure after the password login
//! logs the half-configured session out of the server before the error is
//! reported — is proved as [`lemma_no_abort_without_logout`] and
//! [`lemma_logout_is_ordered`].
//!
//! This crate caches the recovery secret in the store at bootstrap so that
//! later maintenance can re-apply it unattended; the trade-off (convenience
//! of unattended re-recovery against the blast radius of a stolen database
//! file) is deliberate and documented here.

use vstd::prelude::*;
use rand::RngExt;

use crate::db::{db_path, min_engine_version, version_ge, SQLiteHelper, SessionRecord, StoreError, StoreModel};
use crate::sync::SyncHelper;

verus! {

// ---------------------------------------------------------------------------
// Inputs.
// ---------------------------------------------------------------------------

/// The bundle of inputs for a bootstrap.
///
/// The three interaction points of the bootstrap (ask for a recovery key,
/// confirm before a destructive identity reset, announce a fresh recovery
/// key) are not callbacks here: they surface as [`SetupAction`] values that
/// the hosting application answers with [`SetupEvent`] values.
#[derive(Clone)]
pub struct SetupConfig {
    /// The directory that will hold the bot's state database.  Later resume
    /// calls must use the same directory; one directory holds one session.
    pub data_dir: String,
    /// The messaging homeserver, as a server name or a base URL.
    pub homeserver: String,
    /// The user name, as a localpart or a full ID.
    pub username: String,
    /// The password.  Multi-factor authentication and single sign-on are out
    /// of scope: bots run unattended.
    pub password: String,
    /// Descriptive text to tell this session apart from sessions logged in
    /// elsewhere.
    pub device_name: String,
}

// ---------------------------------------------------------------------------
// The machine's alphabet.
// ---------------------------------------------------------------------------

/// Why a bootstrap failed.
#[derive(Clone, Copy, PartialEq, Eq, Structural, Debug)]
pub enum SetupError {
    /// The external client produced no session after the password login.
    SessionMissing,
    /// The external client produced a session of an unrecognized kind.
    UnsupportedSessionKind,
    /// A human declined an interaction point, so the bootstrap stopped
    /// cleanly: no backup was created.
    SetupAborted,
    /// A network or protocol failure from the external client.
    Transport,
    /// A database write failed.
    Persistence,
}

/// What the hosting application must do next.  Every long-latency or
/// irreversible operation of the bootstrap is one of these.
#[derive(Clone, PartialEq, Eq, Debug)]
pub enum SetupAction {
    /// Delete the external client's stale local key-storage files from the
    /// data directory, so a fresh session never meets key storage encrypted
    /// under an older passphrase.
    PurgeStaleKeystore,
    /// Build an external client against `homeserver` whose local key storage
    /// is encrypted with `passphrase`.
    BuildClient { homeserver: String, passphrase: String },
    /// Authenticate with the password, naming the new device.
    PasswordLogin { username: String, password: String, device_name: String },
    /// Ask the client for its serialized session and the homeserver URL.
    FetchSession,
    /// Ask the server whether an encrypted backup already exists.
    CheckBackupExists,
    /// Ask the human for the recovery key of the existing backup.
    AskRecoveryKey,
    /// Recover the existing backup with the human-held key.
    Recover { recovery_key: String },
    /// Ask the human to confirm the destructive identity reset that creating
    /// a backup entails.
    ConfirmBeforeReset,
    /// Begin the cryptographic identity reset; the server answers with the
    /// kind of reauthentication challenge it wants, if any.
    ResetIdentity,
    /// Complete the reset by re-submitting the password as proof of
    /// identity.  `username` is the operator-configured name; a client that
    /// knows its server-resolved user ID should submit that ID as the
    /// challenge's identifier, with this name only as a fallback.
    AnswerPasswordChallenge { username: String, password: String },
    /// Complete the reset after the operator has approved it out of band at
    /// the given URL.
    AnswerApprovalChallenge { approval_url: String },
    /// Enable a new server-side backup and wait for the initial upload to
    /// finish, producing a fresh recovery key.
    EnableBackup,
    /// Hand the freshly generated recovery key to the human to keep safe.
    AnnounceRecoveryKey { recovery_key: String },
    /// Log the half-configured session out of the server before the
    /// bootstrap reports its failure.
    Logout,
}

/// What the hosting application reports back after performing an action.
#[derive(Clone, PartialEq, Eq, Debug)]
pub enum SetupEvent {
    /// The stale key-storage files are gone (deleting is best-effort).
    PurgeDone,
    /// The external client was built.
    ClientBuilt,
    /// The external client could not be built.
    ClientBuildFailed,
    /// The password login succeeded: a server-side session now exists.
    LoginOk,
    /// The password login failed.
    LoginFailed,
    /// The client handed over its session: the homeserver URL it resolved
    /// and the serialized session.
    SessionInfo { homeserver_url: String, session_blob: String },
    /// The client produced no session.
    SessionMissing,
    /// The client produced a session of an unrecognized kind.
    SessionUnsupported,
    /// A backup already exists on the server.
    BackupExists,
    /// No backup exists on the server.
    BackupMissing,
    /// The backup check failed.
    BackupCheckFailed,
    /// The human supplied the recovery key.
    RecoveryKeyProvided { recovery_key: String },
    /// The human refused to supply a recovery key.
    RecoveryKeyRefused,
    /// The backup was recovered with the supplied key.
    RecoverOk,
    /// The backup recovery failed.
    RecoverFailed,
    /// The human confirmed the identity reset.
    ResetConfirmed,
    /// The human declined the identity reset.
    ResetDeclined,
    /// The server wants the password re-submitted to allow the reset.
    ResetChallengePassword,
    /// The server wants an out-of-band approval at this URL first.
    ResetChallengeApproval { approval_url: String },
    /// The server required no reauthentication for the reset.
    ResetNotNeeded,
    /// Beginning the reset failed.
    ResetFailed,
    /// The reauthentication challenge was answered and the reset went
    /// through.
    ChallengeAnswered,
    /// Answering the challenge failed.
    ChallengeFailed,
    /// The new backup is enabled and its initial upload finished; here is
    /// its fresh recovery key.
    BackupEnabled { recovery_key: String },
    /// Enabling the backup failed.
    BackupEnableFailed,
    /// The human acknowledged the recovery key.
    AnnounceOk,
    /// Announcing the recovery key failed.
    AnnounceFailed,
    /// The rollback logout went through.
    LogoutDone,
    /// The rollback logout itself failed; the original failure is still the
    /// one reported.
    LogoutFailed,
}

/// Where the bootstrap stands.
#[derive(Clone, Copy, PartialEq, Eq, Structural, Debug)]
pub enum SetupState {
    /// Waiting for the stale key-storage purge.
    PurgingKeystore,
    /// Waiting for the external client to be built.
    BuildingClient,
    /// Waiting for the password login.
    LoggingIn,
    /// Waiting for the client's serialized session.
    FetchingSession,
    /// Waiting for the server's answer on whether a backup exists.
    CheckingBackup,
    /// Waiting for the human to supply the recovery key.
    AskingRecoveryKey,
    /// Waiting for the backup recovery to finish.
    Recovering,
    /// Waiting for the human to confirm the identity reset.
    Confirming,
    /// Waiting for the server's reset challenge.
    ResettingIdentity,
    /// Waiting for the challenge answer to go through.
    AnsweringChallenge,
    /// Waiting for the new backup's initial upload.
    EnablingBackup,
    /// Waiting for the human to acknowledge the fresh recovery key.
    Announcing,
    /// A failure occurred after the login: waiting for the rollback logout.
    LoggingOut,
    /// The bootstrap finished; the store holds a complete row set.
    Done,
    /// The bootstrap failed; no server-side session is left dangling.
    Failed,
}

// ---------------------------------------------------------------------------
// The machine.
// ---------------------------------------------------------------------------

/// The bootstrap state machine.  Drive it with [`SetupFlow::step`]; read the
/// result with [`SetupFlow::outcome`]; take the store back with
/// [`SetupFlow::into_store`].
///
/// The fields are exposed so the transition relation [`step_rel`] can be
/// stated over them; mutating them directly instead of calling [`step`]
/// voids [`SetupFlow::wf`].
pub struct SetupFlow {
    /// The store, already schema-reset by [`SetupFlow::begin`].
    pub store: SQLiteHelper,
    /// Where the bootstrap stands.
    pub state: SetupState,
    /// The homeserver the operator named.
    pub homeserver: String,
    /// The user name.
    pub username: String,
    /// The password, kept for the reset's reauthentication challenge.
    pub password: String,
    /// The device display name.
    pub device_name: String,
    /// The locally generated passphrase for the client's key storage.
    pub passphrase: String,
    /// The recovery key, once one is known.
    pub recovery_key: Option<String>,
    /// Why the bootstrap is failing, once it is.
    pub fail_reason: Option<SetupError>,
}

/// A character the generated storage passphrase may contain.
pub open spec fn is_passphrase_char(c: char) -> bool {
    ('a' <= c && c <= 'z') || ('A' <= c && c <= 'Z') || ('0' <= c && c <= '9')
}

/// Relies on rand's thread-local generator (rand::rng), Rng::sample_iter and
/// distr::Alphanumeric: the sample is `len` characters drawn from the ASCII
/// letters and digits.  The draw is random, so nothing more is promised of
/// it.
#[verifier::external_body]
fn random_alphanumeric(len: usize) -> (r: String)
    ensures
        r@.len() == len,
        forall|i: int| 0 <= i < r@.len() ==> is_passphrase_char(#[trigger] r@[i]),
{
    rand::rng().sample_iter(rand::distr::Alphanumeric).take(len).map(char::from).collect()
}

/// Which events answer which states.  The hosting application reports the
/// result of the action it was handed, so the pair always fits.
pub open spec fn expects(s: SetupState, e: SetupEvent) -> bool {
    match (s, e) {
        (SetupState::PurgingKeystore, SetupEvent::PurgeDone) => true,
        (SetupState::BuildingClient, SetupEvent::ClientBuilt) => true,
        (SetupState::BuildingClient, SetupEvent::ClientBuildFailed) => true,
        (SetupState::LoggingIn, SetupEvent::LoginOk) => true,
        (SetupState::LoggingIn, SetupEvent::LoginFailed) => true,
        (SetupState::FetchingSession, SetupEvent::SessionInfo { .. }) => true,
        (SetupState::FetchingSession, SetupEvent::SessionMissing) => true,
        (SetupState::FetchingSession, SetupEvent::SessionUnsupported) => true,
        (SetupState::CheckingBackup, SetupEvent::BackupExists) => true,
        (SetupState::CheckingBackup, SetupEvent::BackupMissing) => true,
        (SetupState::CheckingBackup, SetupEvent::BackupCheckFailed) => true,
        (SetupState::AskingRecoveryKey, SetupEvent::RecoveryKeyProvided { .. }) => true,
        (SetupState::AskingRecoveryKey, SetupEvent::RecoveryKeyRefused) => true,
        (SetupState::Recovering, SetupEvent::RecoverOk) => true,
        (SetupState::Recovering, SetupEvent::RecoverFailed) => true,
        (SetupState::Confirming, SetupEvent::ResetConfirmed) => true,
        (SetupState::Confirming, SetupEvent::ResetDeclined) => true,
        (SetupState::ResettingIdentity, SetupEvent::ResetChallengePassword) => true,
        (SetupState::ResettingIdentity, SetupEvent::ResetChallengeApproval { .. }) => true,
        (SetupState::ResettingIdentity, SetupEvent::ResetNotNeeded) => true,
        (SetupState::ResettingIdentity, SetupEvent::ResetFailed) => true,
        (SetupState::AnsweringChallenge, SetupEvent::ChallengeAnswered) => true,
        (SetupState::AnsweringChallenge, SetupEvent::ChallengeFailed) => true,
        (SetupState::EnablingBackup, SetupEvent::BackupEnabled { .. }) => true,
        (SetupState::EnablingBackup, SetupEvent::BackupEnableFailed) => true,
        (SetupState::Announcing, SetupEvent::AnnounceOk) => true,
        (SetupState::Announcing, SetupEvent::AnnounceFailed) => true,
        (SetupState::LoggingOut, SetupEvent::LogoutDone) => true,
        (SetupState::LoggingOut, SetupEvent::LogoutFailed) => true,
        _ => false,
    }
}

/// The states in which a server-side session exists and is this bootstrap's
/// to clean up: everything from a successful password login to the rollback
/// logout.
pub open spec fn session_live(s: SetupState) -> bool {
    ||| s == SetupState::FetchingSession
    ||| s == SetupState::CheckingBackup
    ||| s == SetupState::AskingRecoveryKey
    ||| s == SetupState::Recovering
    ||| s == SetupState::Confirming
    ||| s == SetupState::ResettingIdentity
    ||| s == SetupState::AnsweringChallenge
    ||| s == SetupState::EnablingBackup
    ||| s == SetupState::Announcing
    ||| s == SetupState::LoggingOut
}

/// The inputs and the passphrase never change across a step.
pub open spec fn same_config(pre: SetupFlow, post: SetupFlow) -> bool {
    &&& post.homeserver == pre.homeserver
    &&& post.username == pre.username
    &&& post.password == pre.password
    &&& post.device_name == pre.device_name
    &&& post.passphrase == pre.passphrase
}

/// The store's contents did not move.
pub open spec fn same_db(pre: SetupFlow, post: SetupFlow) -> bool {
    post.store@ == pre.store@
}

/// A step that changes nothing but the state.
pub open spec fn plain_move(pre: SetupFlow, post: SetupFlow, s: SetupState) -> bool {
    &&& post.state == s
    &&& same_db(pre, post)
    &&& post.recovery_key == pre.recovery_key
    &&& post.fail_reason == pre.fail_reason
}

/// A step that turns toward the rollback logout with the given reason.
pub open spec fn to_logging_out(pre: SetupFlow, post: SetupFlow, reason: SetupError) -> bool {
    &&& post.state == SetupState::LoggingOut
    &&& same_db(pre, post)
    &&& post.recovery_key == pre.recovery_key
    &&& post.fail_reason == Some(reason)
}

/// A pre-login failure: the bootstrap fails directly, with nothing to roll
/// back.
pub open spec fn to_failed(pre: SetupFlow, post: SetupFlow, reason: SetupError) -> bool {
    &&& post.state == SetupState::Failed
    &&& same_db(pre, post)
    &&& post.recovery_key == pre.recovery_key
    &&& post.fail_reason == Some(reason)
}

/// The transition relation of the bootstrap: what one [`SetupFlow::step`]
/// call may do.  Steps that write the store have two outcomes, the
/// successful move and the turn toward the rollback logout when the write
/// fails.
pub open spec fn step_rel(
    pre: SetupFlow,
    e: SetupEvent,
    post: SetupFlow,
    action: Option<SetupAction>,
) -> bool {
    &&& same_config(pre, post)
    &&& match (pre.state, e) {
        (SetupState::PurgingKeystore, SetupEvent::PurgeDone) => {
            &&& plain_move(pre, post, SetupState::BuildingClient)
            &&& action == Some(
                SetupAction::BuildClient {
                    homeserver: pre.homeserver,
                    passphrase: pre.passphrase,
                },
            )
        },
        (SetupState::BuildingClient, SetupEvent::ClientBuilt) => {
            &&& plain_move(pre, post, SetupState::LoggingIn)
            &&& action == Some(
                SetupAction::PasswordLogin {
                    username: pre.username,
                    password: pre.password,
                    device_name: pre.device_name,
                },
            )
        },
        (SetupState::BuildingClient, SetupEvent::ClientBuildFailed) => {
            &&& to_failed(pre, post, SetupError::Transport)
            &&& action is None
        },
        (SetupState::LoggingIn, SetupEvent::LoginOk) => {
            &&& plain_move(pre, post, SetupState::FetchingSession)
            &&& action == Some(SetupAction::FetchSession)
        },
        (SetupState::LoggingIn, SetupEvent::LoginFailed) => {
            &&& to_failed(pre, post, SetupError::Transport)
            &&& action is None
        },
        (SetupState::FetchingSession, SetupEvent::SessionInfo { homeserver_url, session_blob }) => {
            ||| {
                &&& post.state == SetupState::CheckingBackup
                &&& post.store@ == pre.store@.with_session(
                    homeserver_url@,
                    pre.passphrase@,
                    session_blob@,
                )
                &&& post.recovery_key == pre.recovery_key
                &&& post.fail_reason == pre.fail_reason
                &&& action == Some(SetupAction::CheckBackupExists)
            }
            ||| {
                &&& to_logging_out(pre, post, SetupError::Persistence)
                &&& action == Some(SetupAction::Logout)
            }
        },
        (SetupState::FetchingSession, SetupEvent::SessionMissing) => {
            &&& to_logging_out(pre, post, SetupError::SessionMissing)
            &&& action == Some(SetupAction::Logout)
        },
        (SetupState::FetchingSession, SetupEvent::SessionUnsupported) => {
            &&& to_logging_out(pre, post, SetupError::UnsupportedSessionKind)
            &&& action == Some(SetupAction::Logout)
        },
        (SetupState::CheckingBackup, SetupEvent::BackupExists) => {
            &&& plain_move(pre, post, SetupState::AskingRecoveryKey)
            &&& action == Some(SetupAction::AskRecoveryKey)
        },
        (SetupState::CheckingBackup, SetupEvent::BackupMissing) => {
            &&& plain_move(pre, post, SetupState::Confirming)
            &&& action == Some(SetupAction::ConfirmBeforeReset)
        },
        (SetupState::CheckingBackup, SetupEvent::BackupCheckFailed) => {
            &&& to_logging_out(pre, post, SetupError::Transport)
            &&& action == Some(SetupAction::Logout)
        },
        (SetupState::AskingRecoveryKey, SetupEvent::RecoveryKeyProvided { recovery_key }) => {
            &&& post.state == SetupState::Recovering
            &&& same_db(pre, post)
            &&& post.recovery_key == Some(recovery_key)
            &&& post.fail_reason == pre.fail_reason
            &&& action == Some(SetupAction::Recover { recovery_key })
        },
        (SetupState::AskingRecoveryKey, SetupEvent::RecoveryKeyRefused) => {
            &&& to_logging_out(pre, post, SetupError::SetupAborted)
            &&& action == Some(SetupAction::Logout)
        },
        (SetupState::Recovering, SetupEvent::RecoverOk) => {
            ||| {
                &&& post.state == SetupState::Done
                &&& pre.recovery_key matches Some(k) && post.store@ == pre.store@.with_recovery(
                    k@,
                )
                &&& post.recovery_key == pre.recovery_key
                &&& post.fail_reason == pre.fail_reason
                &&& action is None
            }
            ||| {
                &&& to_logging_out(pre, post, SetupError::Persistence)
                &&& action == Some(SetupAction::Logout)
            }
        },
        (SetupState::Recovering, SetupEvent::RecoverFailed) => {
            &&& to_logging_out(pre, post, SetupError::Transport)
            &&& action == Some(SetupAction::Logout)
        },
        (SetupState::Confirming, SetupEvent::ResetConfirmed) => {
            &&& plain_move(pre, post, SetupState::ResettingIdentity)
            &&& action == Some(SetupAction::ResetIdentity)
        },
        (SetupState::Confirming, SetupEvent::ResetDeclined) => {
            &&& to_logging_out(pre, post, SetupError::SetupAborted)
            &&& action == Some(SetupAction::Logout)
        },
        (SetupState::ResettingIdentity, SetupEvent::ResetChallengePassword) => {
            &&& plain_move(pre, post, SetupState::AnsweringChallenge)
            &&& action == Some(
                SetupAction::AnswerPasswordChallenge {
                    username: pre.username,
                    password: pre.password,
                },
            )
        },
        (SetupState::ResettingIdentity, SetupEvent::ResetChallengeApproval { approval_url }) => {
            &&& plain_move(pre, post, SetupState::AnsweringChallenge)
            &&& action == Some(SetupAction::AnswerApprovalChallenge { approval_url })
        },
        (SetupState::ResettingIdentity, SetupEvent::ResetNotNeeded) => {
            &&& plain_move(pre, post, SetupState::EnablingBackup)
            &&& action == Some(SetupAction::EnableBackup)
        },
        (SetupState::ResettingIdentity, SetupEvent::ResetFailed) => {
            &&& to_logging_out(pre, post, SetupError::Transport)
            &&& action == Some(SetupAction::Logout)
        },
        (SetupState::AnsweringChallenge, SetupEvent::ChallengeAnswered) => {
            &&& plain_move(pre, post, SetupState::EnablingBackup)
            &&& action == Some(SetupAction::EnableBackup)
        },
        (SetupState::AnsweringChallenge, SetupEvent::ChallengeFailed) => {
            &&& to_logging_out(pre, post, SetupError::Transport)
            &&& action == Some(SetupAction::Logout)
        },
        (SetupState::EnablingBackup, SetupEvent::BackupEnabled { recovery_key }) => {
            ||| {
                &&& post.state == SetupState::Announcing
                &&& post.store@ == pre.store@.with_recovery(recovery_key@)
                &&& post.recovery_key == Some(recovery_key)
                &&& post.fail_reason == pre.fail_reason
                &&& action == Some(SetupAction::AnnounceRecoveryKey { recovery_key })
            }
            ||| {
                &&& to_logging_out(pre, post, SetupError::Persistence)
                &&& action == Some(SetupAction::Logout)
            }
        },
        (SetupState::EnablingBackup, SetupEvent::BackupEnableFailed) => {
            &&& to_logging_out(pre, post, SetupError::Transport)
            &&& action == Some(SetupAction::Logout)
        },
        (SetupState::Announcing, SetupEvent::AnnounceOk) => {
            &&& plain_move(pre, post, SetupState::Done)
            &&& action is None
        },
        (SetupState::Announcing, SetupEvent::AnnounceFailed) => {
            &&& to_logging_out(pre, post, SetupError::SetupAborted)
            &&& action == Some(SetupAction::Logout)
        },
        (SetupState::LoggingOut, SetupEvent::LogoutDone) => {
            &&& post.state == SetupState::Failed
            &&& same_db(pre, post)
            &&& post.recovery_key == pre.recovery_key
            &&& post.fail_reason == pre.fail_reason
            &&& action is None
        },
        (SetupState::LoggingOut, SetupEvent::LogoutFailed) => {
            &&& post.state == SetupState::Failed
            &&& same_db(pre, post)
            &&& post.recovery_key == pre.recovery_key
            &&& post.fail_reason == pre.fail_reason
            &&& action is None
        },
        _ => false,
    }
}

impl SetupFlow {
    /// What [`step`](SetupFlow::step) relies on and maintains: a state that
    /// is about to read the recovery key has one, and a state that is about
    /// to report a failure knows its reason.
    pub open spec fn wf(&self) -> bool {
        &&& self.state == SetupState::Recovering ==> self.recovery_key is Some
        &&& self.state == SetupState::LoggingOut ==> self.fail_reason is Some
        &&& self.state == SetupState::Failed ==> self.fail_reason is Some
    }

    /// Starts a bootstrap: opens (creating if needed) the store in
    /// `config.data_dir`, resets the schema so no partial row set from an
    /// earlier attempt survives, and generates a fresh storage passphrase.
    /// The caller must have created the directory itself and must next
    /// perform the returned action.
    pub fn begin(config: SetupConfig) -> (r: Result<(SetupFlow, SetupAction), StoreError>)
        ensures
            r matches Ok((flow, action)) ==> {
                &&& flow.wf()
                &&& flow.state == SetupState::PurgingKeystore
                &&& flow.store@ == StoreModel::empty()
                &&& flow.homeserver == config.homeserver
                &&& flow.username == config.username
                &&& flow.password == config.password
                &&& flow.device_name == config.device_name
                &&& flow.passphrase@.len() == 32
                &&& forall|i: int|
                    0 <= i < flow.passphrase@.len() ==> is_passphrase_char(
                        #[trigger] flow.passphrase@[i],
                    )
                &&& flow.recovery_key is None
                &&& flow.fail_reason is None
                &&& action == SetupAction::PurgeStaleKeystore
            },
            r matches Err(e) ==> !(e is NoSessionFound),
    {
        let path = db_path(config.data_dir.as_str());
        let mut store = match SQLiteHelper::open(path.as_str(), true) {
            Ok(s) => s,
            Err(e) => {
                return Err(e);
            },
        };
        match store.reset_schema() {
            Ok(()) => (),
            Err(e) => {
                return Err(e);
            },
        }
        let passphrase = random_alphanumeric(32);
        let flow = SetupFlow {
            store,
            state: SetupState::PurgingKeystore,
            homeserver: config.homeserver,
            username: config.username,
            password: config.password,
            device_name: config.device_name,
            passphrase,
            recovery_key: None,
            fail_reason: None,
        };
        Ok((flow, SetupAction::PurgeStaleKeystore))
    }

    /// Whether `event` answers the action this state is waiting on, exactly
    /// as [`expects`] says.  A hosting application can check this before
    /// calling [`step`](SetupFlow::step) and reject a collaborator that
    /// answers out of turn.
    pub fn accepts(&self, event: &SetupEvent) -> (r: bool)
        ensures
            r == expects(self.state, *event),
    {
        match (self.state, event) {
            (SetupState::PurgingKeystore, SetupEvent::PurgeDone) => true,
            (SetupState::BuildingClient, SetupEvent::ClientBuilt) => true,
            (SetupState::BuildingClient, SetupEvent::ClientBuildFailed) => true,
            (SetupState::LoggingIn, SetupEvent::LoginOk) => true,
            (SetupState::LoggingIn, SetupEvent::LoginFailed) => true,
            (SetupState::FetchingSession, SetupEvent::SessionInfo { .. }) => true,
            (SetupState::FetchingSession, SetupEvent::SessionMissing) => true,
            (SetupState::FetchingSession, SetupEvent::SessionUnsupported) => true,
            (SetupState::CheckingBackup, SetupEvent::BackupExists) => true,
            (SetupState::CheckingBackup, SetupEvent::BackupMissing) => true,
            (SetupState::CheckingBackup, SetupEvent::BackupCheckFailed) => true,
            (SetupState::AskingRecoveryKey, SetupEvent::RecoveryKeyProvided { .. }) => true,
            (SetupState::AskingRecoveryKey, SetupEvent::RecoveryKeyRefused) => true,
            (SetupState::Recovering, SetupEvent::RecoverOk) => true,
            (SetupState::Recovering, SetupEvent::RecoverFailed) => true,
            (SetupState::Confirming, SetupEvent::ResetConfirmed) => true,
            (SetupState::Confirming, SetupEvent::ResetDeclined) => true,
            (SetupState::ResettingIdentity, SetupEvent::ResetChallengePassword) => true,
            (SetupState::ResettingIdentity, SetupEvent::ResetChallengeApproval { .. }) => true,
            (SetupState::ResettingIdentity, SetupEvent::ResetNotNeeded) => true,
            (SetupState::ResettingIdentity, SetupEvent::ResetFailed) => true,
            (SetupState::AnsweringChallenge, SetupEvent::ChallengeAnswered) => true,
            (SetupState::AnsweringChallenge, SetupEvent::ChallengeFailed) => true,
            (SetupState::EnablingBackup, SetupEvent::BackupEnabled { .. }) => true,
            (SetupState::EnablingBackup, SetupEvent::BackupEnableFailed) => true,
            (SetupState::Announcing, SetupEvent::AnnounceOk) => true,
            (SetupState::Announcing, SetupEvent::AnnounceFailed) => true,
            (SetupState::LoggingOut, SetupEvent::LogoutDone) => true,
            (SetupState::LoggingOut, SetupEvent::LogoutFailed) => true,
            _ => false,
        }
    }

    /// Feeds the machine the result of the last action and receives the next
    /// one; `None` means the bootstrap is over and
    /// [`outcome`](SetupFlow::outcome) tells how it went.  The step follows
    /// [`step_rel`] exactly.
    pub fn step(&mut self, event: SetupEvent) -> (action: Option<SetupAction>)
        requires
            old(self).wf(),
            expects(old(self).state, event),
        ensures
            final(self).wf(),
            step_rel(*old(self), event, *final(self), action),
    {
        match (self.state, event) {
            (SetupState::PurgingKeystore, SetupEvent::PurgeDone) => {
                self.state = SetupState::BuildingClient;
                Some(
                    SetupAction::BuildClient {
                        homeserver: self.homeserver.clone(),
                        passphrase: self.passphrase.clone(),
                    },
                )
            },
            (SetupState::BuildingClient, SetupEvent::ClientBuilt) => {
                self.state = SetupState::LoggingIn;
                Some(
                    SetupAction::PasswordLogin {
                        username: self.username.clone(),
                        password: self.password.clone(),
                        device_name: self.device_name.clone(),
                    },
                )
            },
            (SetupState::BuildingClient, SetupEvent::ClientBuildFailed) => {
                self.state = SetupState::Failed;
                self.fail_reason = Some(SetupError::Transport);
                None
            },
            (SetupState::LoggingIn, SetupEvent::LoginOk) => {
                self.state = SetupState::FetchingSession;
                Some(SetupAction::FetchSession)
            },
            (SetupState::LoggingIn, SetupEvent::LoginFailed) => {
                self.state = SetupState::Failed;
                self.fail_reason = Some(SetupError::Transport);
                None
            },
            (SetupState::FetchingSession, SetupEvent::SessionInfo { homeserver_url, session_blob }) => {
                let put = self.store.put_session(
                    homeserver_url.as_str(),
                    self.passphrase.as_str(),
                    session_blob.as_str(),
                );
                match put {
                    Ok(()) => {
                        self.state = SetupState::CheckingBackup;
                        Some(SetupAction::CheckBackupExists)
                    },
                    Err(_) => {
                        self.state = SetupState::LoggingOut;
                        self.fail_reason = Some(SetupError::Persistence);
                        Some(SetupAction::Logout)
                    },
                }
            },
            (SetupState::FetchingSession, SetupEvent::SessionMissing) => {
                self.state = SetupState::LoggingOut;
                self.fail_reason = Some(SetupError::SessionMissing);
                Some(SetupAction::Logout)
            },
            (SetupState::FetchingSession, SetupEvent::SessionUnsupported) => {
                self.state = SetupState::LoggingOut;
                self.fail_reason = Some(SetupError::UnsupportedSessionKind);
                Some(SetupAction::Logout)
            },
            (SetupState::CheckingBackup, SetupEvent::BackupExists) => {
                self.state = SetupState::AskingRecoveryKey;
                Some(SetupAction::AskRecoveryKey)
            },
            (SetupState::CheckingBackup, SetupEvent::BackupMissing) => {
                self.state = SetupState::Confirming;
                Some(SetupAction::ConfirmBeforeReset)
            },
            (SetupState::CheckingBackup, SetupEvent::BackupCheckFailed) => {
                self.state = SetupState::LoggingOut;
                self.fail_reason = Some(SetupError::Transport);
                Some(SetupAction::Logout)
            },
            (SetupState::AskingRecoveryKey, SetupEvent::RecoveryKeyProvided { recovery_key }) => {
                self.recovery_key = Some(recovery_key.clone());
                self.state = SetupState::Recovering;
                Some(SetupAction::Recover { recovery_key })
            },
            (SetupState::AskingRecoveryKey, SetupEvent::RecoveryKeyRefused) => {
                self.state = SetupState::LoggingOut;
                self.fail_reason = Some(SetupError::SetupAborted);
                Some(SetupAction::Logout)
            },
            (SetupState::Recovering, SetupEvent::RecoverOk) => {
                let key = match &self.recovery_key {
                    Some(k) => k.clone(),
                    None => unreached(),
                };
                match self.store.put_recovery_secret(key.as_str()) {
                    Ok(()) => {
                        self.state = SetupState::Done;
                        None
                    },
                    Err(_) => {
                        self.state = SetupState::LoggingOut;
                        self.fail_reason = Some(SetupError::Persistence);
                        Some(SetupAction::Logout)
                    },
                }
            },
            (SetupState::Recovering, SetupEvent::RecoverFailed) => {
                self.state = SetupState::LoggingOut;
                self.fail_reason = Some(SetupError::Transport);
                Some(SetupAction::Logout)
            },
            (SetupState::Confirming, SetupEvent::ResetConfirmed) => {
                self.state = SetupState::ResettingIdentity;
                Some(SetupAction::ResetIdentity)
            },
            (SetupState::Confirming, SetupEvent::ResetDeclined) => {
                self.state = SetupState::LoggingOut;
                self.fail_reason = Some(SetupError::SetupAborted);
                Some(SetupAction::Logout)
            },
            (SetupState::ResettingIdentity, SetupEvent::ResetChallengePassword) => {
                self.state = SetupState::AnsweringChallenge;
                Some(
                    SetupAction::AnswerPasswordChallenge {
                        username: self.username.clone(),
                        password: self.password.clone(),
                    },
                )
            },
            (SetupState::ResettingIdentity, SetupEvent::ResetChallengeApproval { approval_url }) => {
                self.state = SetupState::AnsweringChallenge;
                Some(SetupAction::AnswerApprovalChallenge { approval_url })
            },
            (SetupState::ResettingIdentity, SetupEvent::ResetNotNeeded) => {
                self.state = SetupState::EnablingBackup;
                Some(SetupAction::EnableBackup)
            },
            (SetupState::ResettingIdentity, SetupEvent::ResetFailed) => {
                self.state = SetupState::LoggingOut;
                self.fail_reason = Some(SetupError::Transport);
                Some(SetupAction::Logout)
            },
            (SetupState::AnsweringChallenge, SetupEvent::ChallengeAnswered) => {
                self.state = SetupState::EnablingBackup;
                Some(SetupAction::EnableBackup)
            },
            (SetupState::AnsweringChallenge, SetupEvent::ChallengeFailed) => {
                self.state = SetupState::LoggingOut;
                self.fail_reason = Some(SetupError::Transport);
                Some(SetupAction::Logout)
            },
            (SetupState::EnablingBackup, SetupEvent::BackupEnabled { recovery_key }) => {
                match self.store.put_recovery_secret(recovery_key.as_str()) {
                    Ok(()) => {
                        self.recovery_key = Some(recovery_key.clone());
                        self.state = SetupState::Announcing;
                        Some(SetupAction::AnnounceRecoveryKey { recovery_key })
                    },
                    Err(_) => {
                        self.state = SetupState::LoggingOut;
                        self.fail_reason = Some(SetupError::Persistence);
                        Some(SetupAction::Logout)
                    },
                }
            },
            (SetupState::EnablingBackup, SetupEvent::BackupEnableFailed) => {
                self.state = SetupState::LoggingOut;
                self.fail_reason = Some(SetupError::Transport);
                Some(SetupAction::Logout)
            },
            (SetupState::Announcing, SetupEvent::AnnounceOk) => {
                self.state = SetupState::Done;
                None
            },
            (SetupState::Announcing, SetupEvent::AnnounceFailed) => {
                self.state = SetupState::LoggingOut;
                self.fail_reason = Some(SetupError::SetupAborted);
                Some(SetupAction::Logout)
            },
            (SetupState::LoggingOut, SetupEvent::LogoutDone) => {
                self.state = SetupState::Failed;
                None
            },
            (SetupState::LoggingOut, SetupEvent::LogoutFailed) => {
                self.state = SetupState::Failed;
                None
            },
            _ => unreached(),
        }
    }

    /// How the bootstrap ended: `None` while it is still in progress,
    /// `Some(Ok(()))` once every record is persisted, `Some(Err(..))` once
    /// the failure has been cleaned up.
    pub fn outcome(&self) -> (r: Option<Result<(), SetupError>>)
        requires
            self.wf(),
        ensures
            match r {
                Some(res) => match res {
                    Ok(()) => self.state == SetupState::Done,
                    Err(err) => self.state == SetupState::Failed && self.fail_reason == Some(err),
                },
                None => self.state != SetupState::Done && self.state != SetupState::Failed,
            },
    {
        match self.state {
            SetupState::Done => Some(Ok(())),
            SetupState::Failed => match self.fail_reason {
                Some(err) => Some(Err(err)),
                None => unreached(),
            },
            _ => None,
        }
    }

    /// Takes the store back out of a finished bootstrap, so the caller can
    /// read the persisted records or hand the handle on.
    pub fn into_store(self) -> (r: SQLiteHelper)
        ensures
            r == self.store,
    {
        self.store
    }
}

// ---------------------------------------------------------------------------
// Laws of the machine.
// ---------------------------------------------------------------------------

/// Rollback before failure: once the password login has produced a live
/// server-side session, no single step reaches `Failed` except from
/// `LoggingOut`.  With [`lemma_logout_is_ordered`] this is the guarantee
/// that a failed bootstrap never leaves a half-configured session
/// authenticated on the server.
pub proof fn lemma_no_abort_without_logout(
    pre: SetupFlow,
    e: SetupEvent,
    post: SetupFlow,
    action: Option<SetupAction>,
)
    requires
        step_rel(pre, e, post, action),
        session_live(pre.state),
        pre.state != SetupState::LoggingOut,
    ensures
        post.state != SetupState::Failed,
{
}

/// Whenever a step turns toward `LoggingOut`, the very action it hands back
/// is the logout, so the server-side cleanup is ordered before the failure
/// can be reported.
pub proof fn lemma_logout_is_ordered(
    pre: SetupFlow,
    e: SetupEvent,
    post: SetupFlow,
    action: Option<SetupAction>,
)
    requires
        step_rel(pre, e, post, action),
        post.state == SetupState::LoggingOut,
    ensures
        action == Some(SetupAction::Logout),
{
}

/// A recovery key reaches the human only after it is durable: the step that
/// announces a key has already persisted exactly that key as the store's
/// recovery secret.
pub proof fn lemma_announced_key_is_persisted(
    pre: SetupFlow,
    e: SetupEvent,
    post: SetupFlow,
    action: Option<SetupAction>,
    key: String,
)
    requires
        step_rel(pre, e, post, action),
        action == Some(SetupAction::AnnounceRecoveryKey { recovery_key: key }),
    ensures
        post.store@.recovery == Some(key@),
        post.recovery_key == Some(key),
        pre.state == SetupState::EnablingBackup,
        post.state == SetupState::Announcing,
{
}

/// A live session is never silently dropped: a step from any session-live
/// state other than `LoggingOut` either keeps the session live or ends in
/// `Done`.  Together with [`lemma_no_abort_without_logout`] and
/// [`lemma_logout_is_ordered`] this closes the chain over whole runs: a
/// session-live bootstrap can only reach `Failed` through `LoggingOut`, and
/// the step that enters `LoggingOut` hands the driver the logout.
pub proof fn lemma_session_stays_owned(
    pre: SetupFlow,
    e: SetupEvent,
    post: SetupFlow,
    action: Option<SetupAction>,
)
    requires
        step_rel(pre, e, post, action),
        session_live(pre.state),
        pre.state != SetupState::LoggingOut,
    ensures
        session_live(post.state) || post.state == SetupState::Done,
{
}

/// `Done` and `Failed` are truly terminal: no event answers them, so no step
/// can leave them.
pub proof fn lemma_terminal_states_are_final(e: SetupEvent)
    ensures
        !expects(SetupState::Done, e),
        !expects(SetupState::Failed, e),
{
}

// ---------------------------------------------------------------------------
// The resume path.
// ---------------------------------------------------------------------------

/// The resume decision over a read session row: a loaded row is handed on
/// exactly as read, an absent one is the "never successfully set up" error,
/// if and only if.
pub fn session_or_error(loaded: Option<SessionRecord>) -> (r: Result<SessionRecord, StoreError>)
    ensures
        (match loaded {
            Some(rec) => r matches Ok(out) && out == rec,
            None => r matches Err(e) && e is NoSessionFound,
        }),
{
    match loaded {
        Some(rec) => Ok(rec),
        None => Err(StoreError::NoSessionFound),
    }
}

/// Resumes from an already-open store: reads the session row, decides
/// through [`session_or_error`], and seeds a cursor manager over the same
/// store.
///
/// The contract ties [`StoreError::NoSessionFound`] to the store's
/// contents: it is reported only when the session record is absent, and a
/// returned record is exactly the stored one.
pub fn resume_session(store: SQLiteHelper) -> (r: Result<(SessionRecord, SyncHelper), StoreError>)
    ensures
        r matches Ok((record, sync)) ==> {
            &&& sync.wf()
            &&& sync@ == store@
            &&& store@.session == Some(record@)
        },
        r matches Err(e) ==> {
            &&& (e is NoSessionFound ==> store@.session is None)
            &&& (e is NoSessionFound || e is Persistence)
        },
{
    let loaded = match store.get_session() {
        Ok(opt) => opt,
        Err(e) => {
            return Err(e);
        },
    };
    let record = match session_or_error(loaded) {
        Ok(rec) => rec,
        Err(e) => {
            return Err(e);
        },
    };
    match SyncHelper::from_opened_db(store) {
        Ok(sync) => Ok((record, sync)),
        Err(e) => Err(e),
    }
}

/// Loads the session saved by a finished bootstrap in `data_dir` and hands
/// back everything needed to rehydrate the external client, together with a
/// cursor manager over the same (still exclusively locked) store.
///
/// The record returned is exactly the one in the store, so the rehydrated
/// session is the one active at the end of the last successful bootstrap —
/// no human interaction is needed.  [`StoreError::NoSessionFound`] arises
/// exactly from an absent session row: [`resume_session`] states that tie
/// over the opened store.  The saved recovery secret is left for on-demand
/// use; this crate does not re-apply it eagerly at resume.
pub fn login(data_dir: &str) -> (r: Result<(SessionRecord, SyncHelper), StoreError>)
    ensures
        r matches Ok((record, sync)) ==> sync.wf() && sync@.session == Some(record@),
        r matches Err(e) ==> match e {
            StoreError::EngineTooOld { version } => !version_ge(version@, min_engine_version()),
            StoreError::NoSessionFound => true,
            StoreError::Persistence { .. } => true,
        },
{
    let path = db_path(data_dir);
    let store = match SQLiteHelper::open(path.as_str(), false) {
        Ok(s) => s,
        Err(e) => {
            return Err(e);
        },
    };
    resume_session(store)
}

} // verus!


