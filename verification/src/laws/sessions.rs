//! Laws of single steps of a login and a logout, and of what is printed about a session: what comes
//! next, said of what came in.
use vstd::prelude::*;

use crate::session::{
    credential_source, device_name, generate_passphrase, is_deleted, is_keyring_available,
    keyring_account, keyring_service, list_rooms, mark_read_report, receipt_target, status, welcome,
    CredentialStorage, KeyringAnswer, LatestEvent, ListedRoom, Login, LoginEvent, LoginFailure,
    LoginStage, LoginView, Logout, LogoutStage, SessionError, SessionMetadata, StoredCredentials,
};
use crate::text::{decimal_digits, padded, texts, trimmed};

verus! {

/// Whether a login is at a stage, and knows what it knew.
pub open spec fn moved(before: LoginView, after: LoginView, stage: LoginStage) -> bool {
    &&& after.stage == stage
    &&& same_answers(before, after)
    &&& after.account == before.account
    &&& after.storage == before.storage
    &&& after.failure == before.failure
}

/// Whether a login has the answers that it had.
pub open spec fn same_answers(before: LoginView, after: LoginView) -> bool {
    &&& after.homeserver == before.homeserver
    &&& after.username == before.username
    &&& after.password == before.password
    &&& after.existing == before.existing
    &&& after.db_passphrase == before.db_passphrase
    &&& after.db_path == before.db_path
}

/// Whether a login came to a stage at which it has failed or is about to, for this reason.
pub open spec fn gave_up(
    before: LoginView,
    after: LoginView,
    stage: LoginStage,
    failure: LoginFailure,
) -> bool {
    &&& after.stage == stage
    &&& after.failure == Some(failure)
    &&& same_answers(before, after)
    &&& after.account == before.account
    &&& after.storage == before.storage
}

/// A login asks for what was not given: the homeserver, then the user name, and always the password,
/// which is taken as it is typed; the others are taken without the white space around them.
pub proof fn logins_ask_for_what_is_missing(login: &mut Login, event: LoginEvent)
    requires
        call_ensures(Login::advance, (login, event), ()),
    ensures
        ({
            let before = old(login)@;
            let after = final(login)@;
            &&& before.stage == LoginStage::Metadata && event == LoginEvent::Existing(None) ==> {
                &&& before.homeserver is None ==> moved(before, after, LoginStage::Homeserver)
                &&& before.homeserver is Some && before.username is None ==> moved(
                    before,
                    after,
                    LoginStage::Username,
                )
                &&& before.homeserver is Some && before.username is Some ==> moved(
                    before,
                    after,
                    LoginStage::Password,
                )
            }
            &&& before.stage == LoginStage::Homeserver && event is Line ==> {
                &&& after.homeserver == Some(trimmed(event->Line_0@))
                &&& before.username is None ==> after.stage == LoginStage::Username
                &&& before.username is Some ==> after.stage == LoginStage::Password
                &&& after.username == before.username
                &&& after.password == before.password
                &&& after.account == before.account
                &&& after.failure == before.failure
            }
            &&& before.stage == LoginStage::Username && event is Line ==> {
                &&& after.username == Some(trimmed(event->Line_0@))
                &&& after.stage == LoginStage::Password
                &&& after.homeserver == before.homeserver
                &&& after.password == before.password
                &&& after.account == before.account
                &&& after.failure == before.failure
            }
            &&& before.stage == LoginStage::Password && event is Line ==> {
                &&& after.password == event->Line_0@
                &&& after.stage == LoginStage::StaleStore
                &&& after.homeserver == before.homeserver
                &&& after.username == before.username
                &&& after.account == before.account
                &&& after.failure == before.failure
            }
        }),
{
}

/// A login whose steps succeed goes on: from the removal of an old store, which may fail, to a client,
/// the account, the session, the keyring, and the metadata. Where the keyring cannot be used the user
/// chooses the file by its number, and nothing is kept on any other choice.
pub proof fn logins_go_on(login: &mut Login, event: LoginEvent)
    requires
        call_ensures(Login::advance, (login, event), ()),
    ensures
        ({
            let before = old(login)@;
            let after = final(login)@;
            &&& before.stage == LoginStage::StaleStore && (event is Done || event is Failed)
                ==> moved(before, after, LoginStage::Client)
            &&& before.stage == LoginStage::Client && event is Done ==> moved(
                before,
                after,
                LoginStage::Account,
            )
            &&& before.stage == LoginStage::Account && event is Done ==> moved(
                before,
                after,
                LoginStage::Session,
            )
            &&& before.stage == LoginStage::Session && event is Session ==> {
                let account = event->Session_0;
                &&& after.stage == LoginStage::Probe
                &&& after.account is Some
                &&& after.account->0.user_id == account.user_id@
                &&& after.account->0.device_id == account.device_id@
                &&& after.account->0.homeserver_url == account.homeserver_url@
                &&& after.account->0.session_json == account.session_json@
                &&& same_answers(before, after)
                &&& after.failure == before.failure
            }
            &&& before.stage == LoginStage::Probe && event is Keyring ==> {
                let answer = event->Keyring_0;
                if answer == KeyringAnswer::Done || answer == KeyringAnswer::NoEntry || answer
                    == KeyringAnswer::OtherError {
                    moved(before, after, LoginStage::KeyringStore)
                } else {
                    moved(before, after, LoginStage::Choice)
                }
            }
            &&& before.stage == LoginStage::KeyringStore && event is Done ==> after.stage
                == LoginStage::SaveMetadata && after.storage == CredentialStorage::Keyring
                && same_answers(before, after) && after.account == before.account
            &&& before.stage == LoginStage::Choice && event is Line && trimmed(event->Line_0@)
                == "2"@ ==> moved(before, after, LoginStage::FileStore)
            &&& before.stage == LoginStage::Choice && event is Line && trimmed(event->Line_0@)
                != "2"@ ==> after.stage == LoginStage::SaveMetadata && after.storage
                == CredentialStorage::Keyring && same_answers(before, after) && after.account
                == before.account
            &&& before.stage == LoginStage::FileStore && event is Done ==> after.stage
                == LoginStage::SaveMetadata && after.storage == CredentialStorage::File
                && same_answers(before, after) && after.account == before.account
            &&& before.stage == LoginStage::SaveMetadata && event is Done ==> moved(
                before,
                after,
                LoginStage::LoggedIn,
            )
        }),
{
}

/// A login fails where there is a session already, where a step fails, and where the client has no
/// session; a store that it made is removed first where it could not connect or was refused.
pub proof fn logins_give_up(login: &mut Login, event: LoginEvent)
    requires
        call_ensures(Login::advance, (login, event), ()),
    ensures
        ({
            let before = old(login)@;
            let after = final(login)@;
            &&& before.stage == LoginStage::Metadata && event is Existing && event->Existing_0 is Some
                ==> after.stage == LoginStage::Failed && after.failure == Some(
                LoginFailure::AlreadyLoggedIn,
            ) && after.existing == event->Existing_0->0@
            &&& event is Failed && (before.stage == LoginStage::Metadata || before.stage
                == LoginStage::Homeserver || before.stage == LoginStage::Username || before.stage
                == LoginStage::Password || before.stage == LoginStage::Session || before.stage
                == LoginStage::KeyringStore || before.stage == LoginStage::Choice || before.stage
                == LoginStage::FileStore || before.stage == LoginStage::SaveMetadata) ==> gave_up(
                before,
                after,
                LoginStage::Failed,
                LoginFailure::Outside,
            )
            &&& event is Failed && before.stage == LoginStage::Client ==> gave_up(
                before,
                after,
                LoginStage::Cleanup,
                LoginFailure::Outside,
            )
            &&& event is Failed && before.stage == LoginStage::Account ==> gave_up(
                before,
                after,
                LoginStage::Cleanup,
                LoginFailure::LoginFailed,
            )
            &&& event is NoSession && before.stage == LoginStage::Session ==> gave_up(
                before,
                after,
                LoginStage::Failed,
                LoginFailure::NoSessionReturned,
            )
            &&& event is NoSessionMeta && before.stage == LoginStage::Session ==> gave_up(
                before,
                after,
                LoginStage::Failed,
                LoginFailure::NoSessionMeta,
            )
            &&& before.stage == LoginStage::Cleanup && (event is Done || event is Failed) ==> moved(
                before,
                after,
                LoginStage::Failed,
            )
        }),
{
}

/// Whether an event answers what a login waits for at a stage.
pub open spec fn answers(stage: LoginStage, event: LoginEvent) -> bool {
    match event {
        LoginEvent::Existing(_) => stage == LoginStage::Metadata,
        LoginEvent::Line(_) => stage == LoginStage::Homeserver || stage == LoginStage::Username
            || stage == LoginStage::Password || stage == LoginStage::Choice,
        LoginEvent::Done => stage == LoginStage::StaleStore || stage == LoginStage::Client || stage
            == LoginStage::Account || stage == LoginStage::KeyringStore || stage
            == LoginStage::FileStore || stage == LoginStage::SaveMetadata || stage
            == LoginStage::Cleanup,
        LoginEvent::Failed => stage != LoginStage::Probe && stage != LoginStage::LoggedIn && stage
            != LoginStage::Failed,
        LoginEvent::Session(_) => stage == LoginStage::Session,
        LoginEvent::NoSession => stage == LoginStage::Session,
        LoginEvent::NoSessionMeta => stage == LoginStage::Session,
        LoginEvent::Keyring(_) => stage == LoginStage::Probe,
    }
}

/// What does not answer what a login waits for does not change it; what it was made with never
/// changes.
pub proof fn logins_ignore_what_they_do_not_wait_for(login: &mut Login, event: LoginEvent)
    requires
        call_ensures(Login::advance, (login, event), ()),
    ensures
        !answers(old(login)@.stage, event) ==> final(login)@ == old(login)@,
        final(login)@.db_passphrase == old(login)@.db_passphrase,
        final(login)@.db_path == old(login)@.db_path,
{
}

/// A login begins with what it is given, a passphrase of its own, and the question whether there is a
/// session already.
pub proof fn logins_begin_with_what_is_given(
    homeserver: Option<String>,
    username: Option<String>,
    db_path: String,
    r: Login,
)
    requires
        call_ensures(Login::new, (homeserver, username, db_path), r),
    ensures
        r@.stage == LoginStage::Metadata,
        (r@.homeserver is Some) == (homeserver is Some),
        homeserver matches Some(s) ==> r@.homeserver == Some(s@),
        (r@.username is Some) == (username is Some),
        username matches Some(s) ==> r@.username == Some(s@),
        r@.db_path == db_path@,
        r@.db_passphrase.len() == 64,
        r@.account is None,
        r@.failure is None,
{
}

/// What a login shows is what it knows.
pub proof fn logins_show_what_they_know(
    login: Login,
    stage: LoginStage,
    homeserver: &str,
    username: &str,
    password: &str,
    passphrase: &str,
)
    requires
        call_ensures(Login::stage, (&login,), stage),
        call_ensures(Login::homeserver, (&login,), homeserver),
        call_ensures(Login::username, (&login,), username),
        call_ensures(Login::password, (&login,), password),
        call_ensures(Login::db_passphrase, (&login,), passphrase),
    ensures
        stage == login@.stage,
        login@.homeserver matches Some(s) ==> homeserver@ == s,
        login@.homeserver is None ==> homeserver@.len() == 0,
        login@.username matches Some(s) ==> username@ == s,
        login@.username is None ==> username@.len() == 0,
        password@ == login@.password,
        passphrase@ == login@.db_passphrase,
{
    reveal_strlit("");
}

/// Once there is a session, its secrets and its metadata are to be kept: the session as the client
/// gave it with the passphrase of the store, and who is logged in where, with the place of the
/// secrets.
pub proof fn logins_keep_their_session(
    login: Login,
    secrets: Option<StoredCredentials>,
    meta: Option<SessionMetadata>,
)
    requires
        call_ensures(Login::credentials, (&login,), secrets),
        call_ensures(Login::metadata, (&login,), meta),
    ensures
        (secrets is Some) == (login@.account is Some),
        (meta is Some) == (login@.account is Some),
        login@.account matches Some(a) ==> {
            &&& secrets->0.session_json@ == a.session_json
            &&& secrets->0.db_passphrase@ == login@.db_passphrase
            &&& meta->0.user_id@ == a.user_id
            &&& meta->0.device_id@ == a.device_id
            &&& meta->0.homeserver_url@ == a.homeserver_url
            &&& meta->0.db_path@ == login@.db_path
            &&& meta->0.credential_storage == login@.storage
        },
{
}

/// A failed login tells why, and in what words.
pub proof fn failed_logins_tell_why(login: Login, r: Option<SessionError>, text: String)
    requires
        call_ensures(Login::error, (&login,), r),
        r matches Some(e) ==> call_ensures(SessionError::message, (&e,), text),
    ensures
        (r is Some) == (login@.failure is Some),
        login@.failure == Some(LoginFailure::AlreadyLoggedIn) ==> text@ == "Already logged in as "@
            + login@.existing + ". Run `psst logout` first."@,
        login@.failure == Some(LoginFailure::NoSessionReturned) ==> text@
            == "Login succeeded but no session returned"@,
        login@.failure == Some(LoginFailure::NoSessionMeta) ==> text@
            == "No session meta after login"@,
        login@.failure == Some(LoginFailure::LoginFailed) ==> text@ == "Login failed"@,
        login@.failure == Some(LoginFailure::Outside) ==> text@ == ""@,
{
}

/// Other errors have words of their own.
pub proof fn other_errors_tell_why(e: SessionError, text: String)
    requires
        call_ensures(SessionError::message, (&e,), text),
    ensures
        e is NoSession ==> text@ == "No session found. Run `psst login` first."@,
        e is NotLoggedIn ==> text@ == "Not logged in. Nothing to do."@,
        e is NoEventId ==> text@ == "latest event has no event ID"@,
{
}

/// The keyring knows the secrets of a user by their id. It can be used where it answers at all, and
/// has none left where it deleted them or had none.
pub proof fn keyrings_know_users(
    service: &'static str,
    user_id: &str,
    account: String,
    answer: KeyringAnswer,
    available: bool,
    deleted: bool,
)
    requires
        call_ensures(keyring_service, (), service),
        call_ensures(keyring_account, (user_id,), account),
        call_ensures(is_keyring_available, (answer,), available),
        call_ensures(is_deleted, (answer,), deleted),
    ensures
        service@ == "psst"@,
        account@ == "credentials:"@ + user_id@,
        answer == KeyringAnswer::Done || answer == KeyringAnswer::NoEntry ==> available && deleted,
        answer == KeyringAnswer::OtherError ==> available && !deleted,
        answer == KeyringAnswer::Unaddressable || answer == KeyringAnswer::PlatformFailure || answer
            == KeyringAnswer::NoStorageAccess ==> !available && !deleted,
{
}

/// A passphrase is sixty-four letters and digits.
pub proof fn passphrases_are_letters_and_digits(r: String)
    requires
        call_ensures(generate_passphrase, (), r),
    ensures
        r@.len() == 64,
        forall|i: int|
            0 <= i < 64 ==> ('0' <= #[trigger] r@[i] <= '9') || ('A' <= r@[i] <= 'Z') || ('a'
                <= r@[i] <= 'z'),
{
}

/// The secrets of a session are looked for where its metadata says; without metadata there is no
/// session.
pub proof fn secrets_are_where_the_metadata_says(
    meta: Option<SessionMetadata>,
    r: Result<CredentialStorage, SessionError>,
)
    requires
        call_ensures(credential_source, (&meta,), r),
    ensures
        meta matches Some(m) ==> r is Ok && r->Ok_0 == m.credential_storage,
        meta is None ==> r is Err && r->Err_0 is NoSession,
{
}

/// A logout begins at the server where there is a session; where there is none there is nothing to
/// do.
pub proof fn logouts_need_a_session(meta: Option<SessionMetadata>, r: Result<Logout, SessionError>)
    requires
        call_ensures(Logout::new, (&meta,), r),
    ensures
        meta matches Some(m) ==> {
            &&& r is Ok
            &&& r->Ok_0@.stage == LogoutStage::Server
            &&& r->Ok_0@.meta.user_id == m.user_id@
            &&& r->Ok_0@.meta.device_id == m.device_id@
            &&& r->Ok_0@.meta.homeserver_url == m.homeserver_url@
            &&& r->Ok_0@.meta.db_path == m.db_path@
            &&& r->Ok_0@.meta.credential_storage == m.credential_storage
        },
        meta is None ==> r is Err && r->Err_0 is NotLoggedIn,
{
}

/// A logout removes the secrets from where they are, then the metadata, then the store. Neither the
/// server nor the secrets stop it; what is kept on disk does, where it cannot be removed. What the
/// server said is remembered for the end.
pub proof fn logouts_go_on(logout: &mut Logout, ok: bool)
    requires
        call_ensures(Logout::advance, (logout, ok), ()),
    ensures
        ({
            let before = old(logout)@;
            let after = final(logout)@;
            &&& after.meta == before.meta
            &&& before.stage == LogoutStage::Server ==> after.server_ok == ok
            &&& before.stage != LogoutStage::Server ==> after.server_ok == before.server_ok
            &&& before.stage == LogoutStage::Server && before.meta.credential_storage
                == CredentialStorage::Keyring ==> after.stage == LogoutStage::Keyring
            &&& before.stage == LogoutStage::Server && before.meta.credential_storage
                == CredentialStorage::File ==> after.stage == LogoutStage::CredentialsFile
            &&& before.stage == LogoutStage::Keyring || before.stage == LogoutStage::CredentialsFile
                ==> after.stage == LogoutStage::Metadata
            &&& before.stage == LogoutStage::Metadata && ok ==> after.stage == LogoutStage::Store
            &&& before.stage == LogoutStage::Store && ok ==> after.stage == LogoutStage::LoggedOut
            &&& (before.stage == LogoutStage::Metadata || before.stage == LogoutStage::Store) && !ok
                ==> after.stage == LogoutStage::Failed
            &&& before.stage == LogoutStage::LoggedOut || before.stage == LogoutStage::Failed
                ==> after == before
        }),
{
}

/// In the end the user is told whose session is gone, and whether the server knows.
pub proof fn logouts_tell_what_is_gone(
    logout: Logout,
    stage: LogoutStage,
    warning: String,
    farewell: String,
)
    requires
        call_ensures(Logout::stage, (&logout,), stage),
        call_ensures(Logout::server_warning, (&logout,), warning),
        call_ensures(Logout::farewell, (&logout,), farewell),
    ensures
        stage == logout@.stage,
        warning@ == "could not remove session from server. you may need to remove session "@
            + logout@.meta.device_id + " manually from another client."@,
        logout@.server_ok ==> farewell@ == "logged out and cleaned up session for "@
            + logout@.meta.user_id,
        !logout@.server_ok ==> farewell@ == "local session cleaned up for "@ + logout@.meta.user_id,
{
}

/// What is printed names the user, the session and the host as they are.
pub proof fn sessions_are_named(
    user_id: &str,
    device_id: &str,
    greeting: String,
    hostname: Option<&str>,
    device: String,
    room_id: &str,
    marked: bool,
    report: String,
)
    requires
        call_ensures(welcome, (user_id, device_id), greeting),
        call_ensures(device_name, (hostname,), device),
        call_ensures(mark_read_report, (room_id, marked), report),
    ensures
        greeting@ == "logged in as "@ + user_id@ + " (session: "@ + device_id@ + ")"@,
        hostname matches Some(h) ==> device@ == "psst on "@ + h@,
        hostname is None ==> device@ == "psst on "@ + "unknown"@,
        marked ==> report@ == "marked "@ + room_id@ + " as read"@,
        !marked ==> report@ == "no events in room to mark as read"@,
{
}

/// The status of a session is five lines, one for each thing that is known of it; without a session
/// it is one line that says so.
pub proof fn statuses_say_what_is_known(meta: Option<SessionMetadata>, r: Vec<String>)
    requires
        call_ensures(status, (&meta,), r),
    ensures
        meta is None ==> r@.len() == 1 && r@[0]@
            == "not logged in. run `psst login` to get started."@,
        meta matches Some(m) ==> {
            &&& r@.len() == 5
            &&& r@[0]@ == "user:        "@ + m.user_id@
            &&& r@[1]@ == "session ID:  "@ + m.device_id@
            &&& r@[2]@ == "homeserver:  "@ + m.homeserver_url@
            &&& m.credential_storage == CredentialStorage::Keyring ==> r@[3]@ == "credentials: "@
                + "system keyring"@
            &&& m.credential_storage == CredentialStorage::File ==> r@[3]@ == "credentials: "@
                + "file (less secure)"@
            &&& r@[4]@ == "store:       "@ + m.db_path@
        },
{
    assert(texts(r@).len() == r@.len());
    assert forall|i: int| 0 <= i < r@.len() implies texts(r@)[i] == (#[trigger] r@[i])@ by {}
    if let Some(m) = meta {
        assert(r@.len() == 5);
        assert(texts(r@)[0] == r@[0]@);
        assert(texts(r@)[1] == r@[1]@);
        assert(texts(r@)[2] == r@[2]@);
        assert(texts(r@)[3] == r@[3]@);
        assert(texts(r@)[4] == r@[4]@);
    } else {
        assert(texts(r@)[0] == r@[0]@);
    }
}

/// A row of the room list: an id and a mark, each filled up to its column, and a name.
pub open spec fn row(id: Seq<char>, mark: Seq<char>, name: Seq<char>) -> Seq<char> {
    padded(id, 44) + " "@ + padded(mark, 6) + " "@ + name
}

/// The room list is a heading, a rule, a row for each room in their order, an empty line and their
/// number; without rooms it is one line that says so.
pub proof fn room_lists_show_every_room(rooms: Vec<ListedRoom>, r: Vec<String>)
    requires
        call_ensures(list_rooms, (&rooms,), r),
    ensures
        rooms@.len() == 0 ==> r@.len() == 1 && r@[0]@ == "no joined rooms."@,
        rooms@.len() > 0 ==> {
            &&& r@.len() == rooms@.len() + 4
            &&& r@[0]@ == row("ROOM ID"@, "E2EE"@, "NAME"@)
            &&& r@[1]@.len() == 80
            &&& forall|i: int| 0 <= i < 80 ==> #[trigger] r@[1]@[i] == '-'
            &&& r@[rooms@.len() as int + 2]@ == ""@
            &&& r@[rooms@.len() as int + 3]@ == decimal_digits(rooms@.len()) + " rooms total"@
        },
        forall|i: int|
            0 <= i < rooms@.len() ==> {
                let room = #[trigger] rooms@[i];
                &&& room.is_encrypted && room.name is Some ==> r@[i + 2]@ == row(
                    room.room_id@,
                    "yes"@,
                    room.name->0@,
                )
                &&& room.is_encrypted && room.name is None ==> r@[i + 2]@ == row(
                    room.room_id@,
                    "yes"@,
                    "?"@,
                )
                &&& !room.is_encrypted && room.name is Some ==> r@[i + 2]@ == row(
                    room.room_id@,
                    "no"@,
                    room.name->0@,
                )
                &&& !room.is_encrypted && room.name is None ==> r@[i + 2]@ == row(
                    room.room_id@,
                    "no"@,
                    "?"@,
                )
            },
{
    let lines = texts(r@);
    assert(lines.len() == r@.len());
    if rooms@.len() > 0 {
        assert(lines[0] == r@[0]@);
        assert(lines[1] == r@[1]@);
        assert(lines[rooms@.len() as int + 2] == r@[rooms@.len() as int + 2]@);
        assert(lines[rooms@.len() as int + 3] == r@[rooms@.len() as int + 3]@);
    } else {
        assert(lines[0] == r@[0]@);
    }
    assert forall|i: int| 0 <= i < rooms@.len() implies {
        let room = #[trigger] rooms@[i];
        &&& room.is_encrypted && room.name is Some ==> r@[i + 2]@ == row(
            room.room_id@,
            "yes"@,
            room.name->0@,
        )
        &&& room.is_encrypted && room.name is None ==> r@[i + 2]@ == row(
            room.room_id@,
            "yes"@,
            "?"@,
        )
        &&& !room.is_encrypted && room.name is Some ==> r@[i + 2]@ == row(
            room.room_id@,
            "no"@,
            room.name->0@,
        )
        &&& !room.is_encrypted && room.name is None ==> r@[i + 2]@ == row(
            room.room_id@,
            "no"@,
            "?"@,
        )
    } by {
        assert(lines[i + 2] == r@[i + 2]@);
    }
}

/// A room is marked as read up to its latest event, where that has an id; without events there is
/// nothing to mark.
pub proof fn rooms_are_read_up_to_their_latest_event(
    latest: LatestEvent,
    r: Result<Option<String>, SessionError>,
)
    requires
        call_ensures(receipt_target, (latest,), r),
    ensures
        latest is Nothing ==> r is Ok && r->Ok_0 is None,
        latest is WithoutId ==> r is Err && r->Err_0 is NoEventId,
        latest matches LatestEvent::Id(id) ==> r is Ok && r->Ok_0 == Some(id),
{
}

} // verus!
