//! Laws of the login, the logout, the verification, the key import, and the sync.
use vstd::prelude::*;

use crate::runtime::{sync_action, SyncAction};
use crate::session::{
    CredentialStorage, KeyringAnswer, LoginEvent, LoginFailure, LoginStage, LoginView, LogoutStage,
    LogoutView,
};
use crate::text::trimmed;
use crate::verify::{
    says_yes, ComparisonView, ImportEvent, ImportOutcome, ImportStage, KeyImportView, SasEvent,
    SasStage, SyncReport, VerificationEvent, VerificationStage, VerificationView, BACKUP_POLLS,
    VERIFICATION_ATTEMPTS,
};

verus! {

/// Where there is a session already, a login ends at once: nothing is asked and nothing removed.
pub proof fn login_keeps_an_existing_session(login: LoginView, user_id: String)
    requires
        login.stage == LoginStage::Metadata,
    ensures
        login.next(LoginEvent::Existing(Some(user_id))).stage == LoginStage::Failed,
        login.next(LoginEvent::Existing(Some(user_id))).failure == Some(
            LoginFailure::AlreadyLoggedIn,
        ),
        login.next(LoginEvent::Existing(Some(user_id))).existing == user_id@,
{
}

/// A login that cannot connect, or that the server refuses, removes its store before it fails,
/// so that the next one starts afresh.
pub proof fn refused_login_removes_its_store(login: LoginView, event: LoginEvent)
    requires
        login.stage == LoginStage::Client || login.stage == LoginStage::Account,
    ensures
        login.next(event).stage != LoginStage::Failed,
        event is Failed ==> login.next(event).stage == LoginStage::Cleanup && login.next(
            event,
        ).failure is Some,
        event is Failed ==> login.next(event).next(LoginEvent::Done).stage == LoginStage::Failed,
        event is Failed ==> login.next(event).next(LoginEvent::Failed).stage == LoginStage::Failed,
        event is Failed ==> login.next(event).next(LoginEvent::Done).failure == login.next(
            event,
        ).failure,
{
}

/// Secrets go into a file only where the keyring cannot be used and the user chooses the file.
pub proof fn file_takes_an_explicit_choice(login: LoginView, event: LoginEvent)
    ensures
        login.stage != LoginStage::FileStore && login.next(event).stage == LoginStage::FileStore
            ==> login.stage == LoginStage::Choice && event is Line && trimmed(event->Line_0@)
            == "2"@,
        login.stage != LoginStage::Choice && login.next(event).stage == LoginStage::Choice
            ==> login.stage == LoginStage::Probe && (event == LoginEvent::Keyring(
            KeyringAnswer::Unaddressable,
        ) || event == LoginEvent::Keyring(KeyringAnswer::PlatformFailure) || event
            == LoginEvent::Keyring(KeyringAnswer::NoStorageAccess)),
        login.storage != CredentialStorage::File && login.next(event).storage
            == CredentialStorage::File ==> login.stage == LoginStage::FileStore && event is Done,
{
}

/// The metadata names the file exactly where the secrets were put there: nothing but that
/// changes the place, and from there the metadata is written.
pub proof fn metadata_names_the_place_of_the_secrets(login: LoginView, event: LoginEvent)
    ensures
        login.stage == LoginStage::FileStore && event is Done ==> login.next(event).storage
            == CredentialStorage::File && login.next(event).stage == LoginStage::SaveMetadata,
        login.stage == LoginStage::KeyringStore && event is Done ==> login.next(event).storage
            == CredentialStorage::Keyring && login.next(event).stage == LoginStage::SaveMetadata,
        login.stage != LoginStage::FileStore && login.stage != LoginStage::KeyringStore
            && login.stage != LoginStage::Choice ==> login.next(event).storage == login.storage,
{
}

/// The passphrase that a store was made with is the one that is kept.
pub proof fn login_keeps_its_passphrase(login: LoginView, event: LoginEvent)
    ensures
        login.next(event).db_passphrase == login.db_passphrase,
        login.next(event).db_path == login.db_path,
{
}

/// The login succeeds only with a session, and where its metadata was written.
pub proof fn login_needs_a_session(login: LoginView, event: LoginEvent)
    requires
        login.has_account_when_due(),
    ensures
        login.next(event).has_account_when_due(),
        login.stage != LoginStage::LoggedIn && login.next(event).stage == LoginStage::LoggedIn
            ==> login.stage == LoginStage::SaveMetadata && event is Done && login.account is Some,
{
}

/// How far a login is from its end.
pub open spec fn login_distance(stage: LoginStage) -> int {
    match stage {
        LoginStage::Metadata => 13,
        LoginStage::Homeserver => 12,
        LoginStage::Username => 11,
        LoginStage::Password => 10,
        LoginStage::StaleStore => 9,
        LoginStage::Client => 8,
        LoginStage::Account => 7,
        LoginStage::Session => 6,
        LoginStage::Probe => 5,
        LoginStage::KeyringStore => 4,
        LoginStage::Choice => 4,
        LoginStage::FileStore => 3,
        LoginStage::SaveMetadata => 2,
        LoginStage::Cleanup => 1,
        LoginStage::LoggedIn => 0,
        LoginStage::Failed => 0,
    }
}

/// A login comes to an end: every event that changes anything brings it nearer, and once it is
/// over nothing changes it.
pub proof fn login_ends(login: LoginView, event: LoginEvent)
    ensures
        login.next(event) == login || login_distance(login.next(event).stage) < login_distance(
            login.stage,
        ),
        login.over() <==> login_distance(login.stage) == 0,
        login.over() ==> login.next(event) == login,
{
}

/// A logout goes on to remove what is kept here even where the server cannot be reached or the
/// secrets cannot be removed, and it looks for the secrets where they were put.
pub proof fn logout_always_cleans_up(logout: LogoutView, server: bool, secrets: bool)
    requires
        logout.stage == LogoutStage::Server,
    ensures
        logout.next(server).stage == match logout.meta.credential_storage {
            CredentialStorage::Keyring => LogoutStage::Keyring,
            CredentialStorage::File => LogoutStage::CredentialsFile,
        },
        logout.next(server).next(secrets).stage == LogoutStage::Metadata,
        logout.next(server).next(secrets).next(true).stage == LogoutStage::Store,
        logout.next(server).next(secrets).next(true).next(true).stage == LogoutStage::LoggedOut,
        logout.next(server).next(secrets).next(true).next(true).server_ok == server,
{
}

/// How far a logout is from its end.
pub open spec fn logout_distance(stage: LogoutStage) -> int {
    match stage {
        LogoutStage::Server => 4,
        LogoutStage::Keyring => 3,
        LogoutStage::CredentialsFile => 3,
        LogoutStage::Metadata => 2,
        LogoutStage::Store => 1,
        LogoutStage::LoggedOut => 0,
        LogoutStage::Failed => 0,
    }
}

/// A logout comes to an end, and whose session it ends stays the same.
pub proof fn logout_ends(logout: LogoutView, ok: bool)
    ensures
        logout.over() || logout_distance(logout.next(ok).stage) < logout_distance(logout.stage),
        logout.over() ==> logout.next(ok) == logout,
        logout.next(ok).meta == logout.meta,
{
}

/// Whether the number of requests is within its limit.
pub open spec fn within_attempts(v: VerificationView) -> bool {
    0 <= v.attempt < VERIFICATION_ATTEMPTS && (v.stage == VerificationStage::Pause
        ==> v.may_retry())
}

/// A verification is requested three times at most: a cancelled request is repeated exactly
/// while the limit allows, and the last one's cancellation is a failure with its reason.
pub proof fn verification_retries_are_bounded(v: VerificationView, event: VerificationEvent)
    requires
        within_attempts(v),
    ensures
        within_attempts(VerificationView::fresh()),
        within_attempts(v.next(event)),
        v.stage == VerificationStage::Answer && event is Cancelled && v.attempt
            < VERIFICATION_ATTEMPTS - 1 ==> v.next(event).stage == VerificationStage::Pause && v.next(
            event,
        ).next(VerificationEvent::Done).stage == VerificationStage::Request,
        v.stage == VerificationStage::Answer && event is Cancelled && v.attempt
            == VERIFICATION_ATTEMPTS - 1 ==> v.next(event).stage == VerificationStage::Failed
            && v.next(event).error == Some(
            crate::verify::VerificationErrorView::Cancelled(event->Cancelled_0@),
        ),
{
}

/// A device counts as verified only after the keys were imported, and they are imported only
/// after the comparison, or after the other device said that all is done.
pub proof fn verification_takes_a_comparison(v: VerificationView, event: VerificationEvent)
    ensures
        v.stage != VerificationStage::Verified && v.next(event).stage == VerificationStage::Verified
            ==> v.stage == VerificationStage::Import && event is Done,
        v.stage != VerificationStage::Import && v.next(event).stage == VerificationStage::Import
            ==> (v.stage == VerificationStage::Comparison && event is Done) || (v.stage
            == VerificationStage::Answer && event is Completed),
{
}

/// How far a verification is from its end.
pub open spec fn verification_distance(v: VerificationView) -> int {
    if v.over() {
        0
    } else {
        (VERIFICATION_ATTEMPTS - v.attempt) * 10 + match v.stage {
            VerificationStage::Request => 5int,
            VerificationStage::Answer => 4int,
            VerificationStage::Comparison => 3int,
            VerificationStage::Import => 2int,
            VerificationStage::Pause => 1int,
            _ => 0int,
        }
    }
}

/// A verification comes to an end: every event that changes anything brings it nearer.
pub proof fn verification_ends(v: VerificationView, event: VerificationEvent)
    requires
        within_attempts(v),
    ensures
        v.next(event) == v || verification_distance(v.next(event)) < verification_distance(v),
        v.over() ==> v.next(event) == v,
        verification_distance(v) >= 0,
{
}

/// Emoji are confirmed only where the user says that they match; any other answer reports a
/// mismatch and fails the comparison.
pub proof fn emoji_take_a_yes(c: ComparisonView, event: SasEvent)
    ensures
        c.stage != SasStage::Confirm && c.next(event).stage == SasStage::Confirm ==> c.stage
            == SasStage::Question && event is Line && says_yes(event->Line_0@),
        c.stage == SasStage::Question && event is Line && !says_yes(event->Line_0@) ==> c.next(
            event,
        ).stage == SasStage::Mismatch && c.next(event).next(SasEvent::Done).stage
            == SasStage::Failed,
        c.over() ==> c.next(event) == c,
{
}

/// Whether the number of looks for the backup key is within its limit.
pub open spec fn within_polls(i: KeyImportView) -> bool {
    0 <= i.polls <= BACKUP_POLLS && (i.stage == ImportStage::Poll ==> i.polls < BACKUP_POLLS)
}

/// The import looks for the backup key ten times at most.
pub proof fn import_looks_are_bounded(i: KeyImportView, event: ImportEvent)
    requires
        within_polls(i),
    ensures
        within_polls(i.next(event)),
        i.stage == ImportStage::Poll && event == ImportEvent::Backup(false) ==> i.next(event).polls
            == i.polls + 1,
{
}

/// The recovery key is asked for only where the backup is on the server, is not enabled here,
/// and secret storage is there; and the keys count as imported only once they were recovered.
pub proof fn import_asks_only_where_it_must(i: KeyImportView, event: ImportEvent)
    ensures
        i.stage != ImportStage::Key && i.next(event).stage == ImportStage::Key ==> i.stage
            == ImportStage::Storage && event is Recovery && event->Recovery_0
            != crate::verify::Recovery::Disabled,
        i.stage != ImportStage::Storage && i.next(event).stage == ImportStage::Storage ==> i.stage
            == ImportStage::ServerBackup && event == ImportEvent::ServerBackup(Some(true)),
        i.stage != ImportStage::ServerBackup && i.next(event).stage == ImportStage::ServerBackup
            ==> i.stage == ImportStage::Recovery && event is Recovery && event->Recovery_0
            != crate::verify::Recovery::Enabled,
        i.stage != ImportStage::Recovery && i.next(event).stage == ImportStage::Recovery ==> i.stage
            == ImportStage::Backup && event == ImportEvent::Backup(false),
        i.stage != ImportStage::Finished(ImportOutcome::Imported) && i.next(event).stage
            == ImportStage::Finished(ImportOutcome::Imported) ==> i.stage == ImportStage::Recover
            && event is Done,
        i.over() ==> i.next(event) == i,
{
}

/// How far an import is from its end.
pub open spec fn import_distance(i: KeyImportView) -> int {
    let looks_left = BACKUP_POLLS - i.polls;
    match i.stage {
        ImportStage::Poll => 10 + 2 * looks_left,
        ImportStage::Pause => 11 + 2 * looks_left,
        ImportStage::Backup => 6,
        ImportStage::Recovery => 5,
        ImportStage::ServerBackup => 4,
        ImportStage::Storage => 3,
        ImportStage::Key => 2,
        ImportStage::Recover => 1,
        ImportStage::Finished(_) => 0,
        ImportStage::Failed => 0,
    }
}

/// An import comes to an end: every event that changes anything brings it nearer.
pub proof fn import_ends(i: KeyImportView, event: ImportEvent)
    requires
        within_polls(i),
    ensures
        i.next(event) == i || import_distance(i.next(event)) < import_distance(i),
        import_distance(i) >= 0,
        i.over() <==> import_distance(i) == 0,
{
}

/// How far a comparison is from its end, as long as no emoji are shown again.
pub open spec fn comparison_distance(stage: SasStage) -> int {
    match stage {
        SasStage::Accept => 5,
        SasStage::Change => 4,
        SasStage::Question => 3,
        SasStage::Confirm => 2,
        SasStage::Mismatch => 1,
        SasStage::Over => 0,
        SasStage::Failed => 0,
    }
}

/// A comparison goes on towards its end with every event that changes anything, but for one: once
/// emoji are confirmed it waits for the other device again, which may show new ones.
pub proof fn comparison_goes_on(c: ComparisonView, event: SasEvent)
    ensures
        c.next(event) == c || comparison_distance(c.next(event).stage) < comparison_distance(
            c.stage,
        ) || (c.stage == SasStage::Confirm && event is Done && c.next(event).stage
            == SasStage::Change),
        c.over() <==> comparison_distance(c.stage) == 0,
{
}

/// The first sync ends once: after that a running sync has merely resumed.
pub proof fn first_sync_ends_once(report: Option<SyncReport>, done: bool)
    ensures
        sync_action(report, done) == SyncAction::Begin ==> !done,
        sync_action(Some(SyncReport::Running), false) == SyncAction::Begin,
        sync_action(Some(SyncReport::Running), true) == SyncAction::Resumed,
{
}

} // verus!
