//! Sessions: where their secrets are kept, the login and the logout, and what is printed about
//! them.
use vstd::prelude::*;
use vstd::string::*;

use rand::Rng;

use crate::text::{
    decimal, decimal_digits, join, pad_right, padded, repeat_char, repeated, same_text, texts,
    trim, trimmed,
};

verus! {

/// Where the secrets of a session are kept.
#[derive(Debug, Clone, Copy, PartialEq, Eq, Structural)]
pub enum CredentialStorage {
    /// In the system keyring.
    Keyring,
    /// In a file that only its owner may read and write.
    File,
}

/// What is known of a session that is not secret.
#[derive(Debug)]
pub struct SessionMetadata {
    pub homeserver_url: String,
    pub user_id: String,
    pub device_id: String,
    pub db_path: String,
    pub credential_storage: CredentialStorage,
}

/// What a `SessionMetadata` says.
#[verifier::ext_equal]
pub struct SessionMetadataView {
    pub homeserver_url: Seq<char>,
    pub user_id: Seq<char>,
    pub device_id: Seq<char>,
    pub db_path: Seq<char>,
    pub credential_storage: CredentialStorage,
}

impl View for SessionMetadata {
    type V = SessionMetadataView;

    open spec fn view(&self) -> SessionMetadataView {
        SessionMetadataView {
            homeserver_url: self.homeserver_url@,
            user_id: self.user_id@,
            device_id: self.device_id@,
            db_path: self.db_path@,
            credential_storage: self.credential_storage,
        }
    }
}

impl Clone for SessionMetadata {
    fn clone(&self) -> (r: Self)
        ensures
            r@ == self@,
    {
        SessionMetadata {
            homeserver_url: self.homeserver_url.clone(),
            user_id: self.user_id.clone(),
            device_id: self.device_id.clone(),
            db_path: self.db_path.clone(),
            credential_storage: self.credential_storage,
        }
    }
}

/// The secrets of a session.
#[derive(Debug)]
pub struct StoredCredentials {
    /// The session as the client keeps it, with its access token.
    pub session_json: String,
    /// What the state store is encrypted with.
    pub db_passphrase: String,
}

/// Why an operation on the session came to nothing.
#[derive(Debug)]
pub enum SessionError {
    /// There is a session already, of this user.
    AlreadyLoggedIn(String),
    /// There is no session to restore.
    NoSession,
    /// There is no session to end.
    NotLoggedIn,
    /// The server accepted the login and gave no session.
    NoSessionReturned,
    /// The client knows nothing of its own session.
    NoSessionMeta,
    /// The latest event of a room has no id.
    NoEventId,
    /// Something outside failed; who ran it knows why.
    Outside,
    /// The server refused the login; who ran it knows why.
    LoginFailed,
}

impl SessionError {
    /// What the user is told.
    pub open spec fn text(self) -> Seq<char> {
        match self {
            SessionError::AlreadyLoggedIn(user_id) => "Already logged in as "@ + user_id@
                + ". Run `psst logout` first."@,
            SessionError::NoSession => "No session found. Run `psst login` first."@,
            SessionError::NotLoggedIn => "Not logged in. Nothing to do."@,
            SessionError::NoSessionReturned => "Login succeeded but no session returned"@,
            SessionError::NoSessionMeta => "No session meta after login"@,
            SessionError::NoEventId => "latest event has no event ID"@,
            SessionError::Outside => ""@,
            SessionError::LoginFailed => "Login failed"@,
        }
    }

    /// What the user is told.
    pub fn message(&self) -> (r: String)
        ensures
            r@ == self.text(),
    {
        match self {
            SessionError::AlreadyLoggedIn(user_id) => join(
                "Already logged in as ",
                user_id.as_str(),
            ).concat(". Run `psst logout` first."),
            SessionError::NoSession => "No session found. Run `psst login` first.".to_owned(),
            SessionError::NotLoggedIn => "Not logged in. Nothing to do.".to_owned(),
            SessionError::NoSessionReturned => {
                "Login succeeded but no session returned".to_owned()
            },
            SessionError::NoSessionMeta => "No session meta after login".to_owned(),
            SessionError::NoEventId => "latest event has no event ID".to_owned(),
            SessionError::Outside => "".to_owned(),
            SessionError::LoginFailed => "Login failed".to_owned(),
        }
    }
}

/// The name under which the keyring knows this program.
pub fn keyring_service() -> (r: &'static str)
    ensures
        r@ == "psst"@,
{
    "psst"
}

/// The keyring account that holds the secrets of a user.
pub fn keyring_account(user_id: &str) -> (r: String)
    ensures
        r@ == "credentials:"@ + user_id@,
{
    join("credentials:", user_id)
}

/// How the keyring answered when asked for an entry.
#[derive(Debug, Clone, Copy, PartialEq, Eq, Structural)]
pub enum KeyringAnswer {
    /// The entry cannot even be addressed.
    Unaddressable,
    /// There is one, or it was deleted.
    Done,
    /// There is none.
    NoEntry,
    /// The platform's secure storage failed.
    PlatformFailure,
    /// The platform's secure storage is locked or out of reach.
    NoStorageAccess,
    /// Something else went wrong.
    OtherError,
}

/// Tells from the keyring's answer to a probe whether it can be used. It can where it answers at
/// all, be it with an error of its own.
pub fn is_keyring_available(probe: KeyringAnswer) -> (r: bool)
    ensures
        r == !(probe == KeyringAnswer::Unaddressable || probe == KeyringAnswer::PlatformFailure
            || probe == KeyringAnswer::NoStorageAccess),
{
    match probe {
        KeyringAnswer::Done => true,
        KeyringAnswer::NoEntry => true,
        KeyringAnswer::PlatformFailure => false,
        KeyringAnswer::NoStorageAccess => false,
        KeyringAnswer::OtherError => true,
        KeyringAnswer::Unaddressable => false,
    }
}

/// Tells from the keyring's answer to a deletion whether the secrets are gone. They are also
/// where there were none.
pub fn is_deleted(answer: KeyringAnswer) -> (r: bool)
    ensures
        r == (answer == KeyringAnswer::Done || answer == KeyringAnswer::NoEntry),
{
    match answer {
        KeyringAnswer::Done => true,
        KeyringAnswer::NoEntry => true,
        _ => false,
    }
}

/// Whether the character is an ASCII letter or digit.
pub open spec fn alphanumeric(c: char) -> bool {
    ('0' <= c <= '9') || ('A' <= c <= 'Z') || ('a' <= c <= 'z')
}

/// `rand::Rng::sample` of `rand::distributions::Alphanumeric`, from the generator of the thread:
/// an ASCII letter or digit. Which one is left to chance.
#[verifier::external_body]
fn random_alphanumeric() -> (c: char)
    ensures
        alphanumeric(c),
{
    rand::thread_rng().sample(rand::distributions::Alphanumeric) as char
}

/// How long the passphrase of a state store is.
pub const PASSPHRASE_LENGTH: usize = 64;

/// Makes up a passphrase for a state store: letters and digits by chance.
pub fn generate_passphrase() -> (r: String)
    ensures
        r@.len() == PASSPHRASE_LENGTH,
        forall|i: int| 0 <= i < r@.len() ==> alphanumeric(#[trigger] r@[i]),
{
    let mut out = String::new();
    let mut i: usize = 0;
    while i < PASSPHRASE_LENGTH
        invariant
            i <= PASSPHRASE_LENGTH,
            out@.len() == i,
            forall|j: int| 0 <= j < i ==> alphanumeric(#[trigger] out@[j]),
        decreases PASSPHRASE_LENGTH - i,
    {
        let c = random_alphanumeric();
        out.push(c);
        i += 1;
    }
    out
}

/// Tells where the secrets of the session to restore are kept.
pub fn credential_source(meta: &Option<SessionMetadata>) -> (r: Result<
    CredentialStorage,
    SessionError,
>)
    ensures
        match *meta {
            Some(m) => r == Ok::<CredentialStorage, SessionError>(m.credential_storage),
            None => r == Err::<CredentialStorage, SessionError>(SessionError::NoSession),
        },
{
    match meta {
        Some(m) => Ok(m.credential_storage),
        None => Err(SessionError::NoSession),
    }
}

/// The name under which this session shows in the account: it names the host where that is
/// known.
pub fn device_name(hostname: Option<&str>) -> (r: String)
    ensures
        r@ == "psst on "@ + match hostname {
            Some(h) => h@,
            None => "unknown"@,
        },
{
    match hostname {
        Some(h) => join("psst on ", h),
        None => join("psst on ", "unknown"),
    }
}

/// What the login waits for.
#[derive(Debug, Clone, Copy, PartialEq, Eq, Structural)]
pub enum LoginStage {
    /// The metadata of a session that may be there already.
    Metadata,
    /// The homeserver, typed in.
    Homeserver,
    /// The user name, typed in.
    Username,
    /// The password, typed in unseen.
    Password,
    /// The removal of the store that a failed login left behind.
    StaleStore,
    /// A client of the homeserver, with a new store.
    Client,
    /// The server's word on name and password.
    Account,
    /// The session that the client has now.
    Session,
    /// The keyring's answer to a probe.
    Probe,
    /// The secrets put into the keyring.
    KeyringStore,
    /// The choice between not saving the secrets and a file, typed in.
    Choice,
    /// The secrets put into a file.
    FileStore,
    /// The metadata written.
    SaveMetadata,
    /// The removal of the store after a failure.
    Cleanup,
    /// Nothing: the session is there.
    LoggedIn,
    /// Nothing: the login failed.
    Failed,
}

/// The session that a login came to.
#[derive(Debug)]
pub struct Account {
    pub user_id: String,
    pub device_id: String,
    /// The homeserver as it was found, not as it was typed in.
    pub homeserver_url: String,
    pub session_json: String,
}

/// What an `Account` says.
#[verifier::ext_equal]
pub struct AccountView {
    pub user_id: Seq<char>,
    pub device_id: Seq<char>,
    pub homeserver_url: Seq<char>,
    pub session_json: Seq<char>,
}

impl View for Account {
    type V = AccountView;

    open spec fn view(&self) -> AccountView {
        AccountView {
            user_id: self.user_id@,
            device_id: self.device_id@,
            homeserver_url: self.homeserver_url@,
            session_json: self.session_json@,
        }
    }
}

/// What became of what the login waits for.
#[derive(Debug)]
pub enum LoginEvent {
    /// The user of the session that is there already, if there is one.
    Existing(Option<String>),
    /// A line that the user typed.
    Line(String),
    /// It was done.
    Done,
    /// It failed.
    Failed,
    /// The client has a session.
    Session(Account),
    /// The client has no session.
    NoSession,
    /// The client knows nothing of its session.
    NoSessionMeta,
    /// The keyring's answer.
    Keyring(KeyringAnswer),
}

/// Why a login failed, without the texts.
#[derive(Debug, Clone, Copy, PartialEq, Eq, Structural)]
pub enum LoginFailure {
    AlreadyLoggedIn,
    NoSessionReturned,
    NoSessionMeta,
    Outside,
    LoginFailed,
}

/// A login on its way. It is told what became of what it waits for, and then waits for the next
/// thing.
pub struct Login {
    stage: LoginStage,
    homeserver: Option<String>,
    username: Option<String>,
    password: String,
    db_passphrase: String,
    db_path: String,
    existing: String,
    account: Option<Account>,
    storage: CredentialStorage,
    failure: Option<LoginFailure>,
}

/// What a `Login` knows.
#[verifier::ext_equal]
pub struct LoginView {
    pub stage: LoginStage,
    pub homeserver: Option<Seq<char>>,
    pub username: Option<Seq<char>>,
    pub password: Seq<char>,
    pub db_passphrase: Seq<char>,
    pub db_path: Seq<char>,
    pub existing: Seq<char>,
    pub account: Option<AccountView>,
    pub storage: CredentialStorage,
    pub failure: Option<LoginFailure>,
}

/// What an optional account says.
pub open spec fn opt_account(a: Option<Account>) -> Option<AccountView> {
    match a {
        Some(a) => Some(a@),
        None => None,
    }
}

impl View for Login {
    type V = LoginView;

    closed spec fn view(&self) -> LoginView {
        LoginView {
            stage: self.stage,
            homeserver: crate::text::opt_text(self.homeserver),
            username: crate::text::opt_text(self.username),
            password: self.password@,
            db_passphrase: self.db_passphrase@,
            db_path: self.db_path@,
            existing: self.existing@,
            account: opt_account(self.account),
            storage: self.storage,
            failure: self.failure,
        }
    }
}

impl LoginView {
    /// The same login at another stage.
    pub open spec fn at(self, stage: LoginStage) -> LoginView {
        LoginView { stage, ..self }
    }

    /// The login failed.
    pub open spec fn failed(self, failure: LoginFailure) -> LoginView {
        LoginView { stage: LoginStage::Failed, failure: Some(failure), ..self }
    }

    /// The login failed with a store left to remove.
    pub open spec fn unwound(self, failure: LoginFailure) -> LoginView {
        LoginView { stage: LoginStage::Cleanup, failure: Some(failure), ..self }
    }

    /// The next question to the user: the homeserver and the user name where they were not
    /// given, then the password.
    pub open spec fn asking(self) -> LoginView {
        if self.homeserver is None {
            self.at(LoginStage::Homeserver)
        } else if self.username is None {
            self.at(LoginStage::Username)
        } else {
            self.at(LoginStage::Password)
        }
    }

    /// The metadata remains to be written.
    pub open spec fn saving(self, storage: CredentialStorage) -> LoginView {
        LoginView { stage: LoginStage::SaveMetadata, storage, ..self }
    }

    /// Whether nothing more is waited for.
    pub open spec fn over(self) -> bool {
        self.stage == LoginStage::LoggedIn || self.stage == LoginStage::Failed
    }

    /// Whether the session is known from the stage on at which it is used.
    pub open spec fn has_account_when_due(self) -> bool {
        match self.stage {
            LoginStage::Probe | LoginStage::KeyringStore | LoginStage::Choice
            | LoginStage::FileStore | LoginStage::SaveMetadata | LoginStage::LoggedIn =>
                self.account is Some,
            _ => true,
        }
    }

    /// The login after an event. An event that does not answer what is waited for changes
    /// nothing.
    pub open spec fn next(self, event: LoginEvent) -> LoginView {
        match self.stage {
            LoginStage::Metadata => match event {
                LoginEvent::Existing(Some(user_id)) => LoginView {
                    existing: user_id@,
                    ..self.failed(LoginFailure::AlreadyLoggedIn)
                },
                LoginEvent::Existing(None) => self.asking(),
                LoginEvent::Failed => self.failed(LoginFailure::Outside),
                _ => self,
            },
            LoginStage::Homeserver => match event {
                LoginEvent::Line(line) => LoginView {
                    homeserver: Some(trimmed(line@)),
                    ..self
                }.asking(),
                LoginEvent::Failed => self.failed(LoginFailure::Outside),
                _ => self,
            },
            LoginStage::Username => match event {
                LoginEvent::Line(line) => LoginView {
                    username: Some(trimmed(line@)),
                    ..self.at(LoginStage::Password)
                },
                LoginEvent::Failed => self.failed(LoginFailure::Outside),
                _ => self,
            },
            LoginStage::Password => match event {
                LoginEvent::Line(line) => LoginView {
                    password: line@,
                    ..self.at(LoginStage::StaleStore)
                },
                LoginEvent::Failed => self.failed(LoginFailure::Outside),
                _ => self,
            },
            LoginStage::StaleStore => match event {
                LoginEvent::Done => self.at(LoginStage::Client),
                LoginEvent::Failed => self.at(LoginStage::Client),
                _ => self,
            },
            LoginStage::Client => match event {
                LoginEvent::Done => self.at(LoginStage::Account),
                LoginEvent::Failed => self.unwound(LoginFailure::Outside),
                _ => self,
            },
            LoginStage::Account => match event {
                LoginEvent::Done => self.at(LoginStage::Session),
                LoginEvent::Failed => self.unwound(LoginFailure::LoginFailed),
                _ => self,
            },
            LoginStage::Session => match event {
                LoginEvent::Session(account) => LoginView {
                    account: Some(account@),
                    ..self.at(LoginStage::Probe)
                },
                LoginEvent::NoSession => self.failed(LoginFailure::NoSessionReturned),
                LoginEvent::NoSessionMeta => self.failed(LoginFailure::NoSessionMeta),
                LoginEvent::Failed => self.failed(LoginFailure::Outside),
                _ => self,
            },
            LoginStage::Probe => match event {
                LoginEvent::Keyring(answer) => if answer == KeyringAnswer::Unaddressable || answer
                    == KeyringAnswer::PlatformFailure || answer == KeyringAnswer::NoStorageAccess {
                    self.at(LoginStage::Choice)
                } else {
                    self.at(LoginStage::KeyringStore)
                },
                _ => self,
            },
            LoginStage::KeyringStore => match event {
                LoginEvent::Done => self.saving(CredentialStorage::Keyring),
                LoginEvent::Failed => self.failed(LoginFailure::Outside),
                _ => self,
            },
            LoginStage::Choice => match event {
                LoginEvent::Line(line) => if trimmed(line@) == "2"@ {
                    self.at(LoginStage::FileStore)
                } else {
                    self.saving(CredentialStorage::Keyring)
                },
                LoginEvent::Failed => self.failed(LoginFailure::Outside),
                _ => self,
            },
            LoginStage::FileStore => match event {
                LoginEvent::Done => self.saving(CredentialStorage::File),
                LoginEvent::Failed => self.failed(LoginFailure::Outside),
                _ => self,
            },
            LoginStage::SaveMetadata => match event {
                LoginEvent::Done => self.at(LoginStage::LoggedIn),
                LoginEvent::Failed => self.failed(LoginFailure::Outside),
                _ => self,
            },
            LoginStage::Cleanup => match event {
                LoginEvent::Done => self.at(LoginStage::Failed),
                LoginEvent::Failed => self.at(LoginStage::Failed),
                _ => self,
            },
            LoginStage::LoggedIn => self,
            LoginStage::Failed => self,
        }
    }

    /// What was asked for, or nothing.
    pub open spec fn text_or_nothing(answer: Option<Seq<char>>) -> Seq<char> {
        match answer {
            Some(s) => s,
            None => ""@,
        }
    }
}

impl Login {
    /// A login that waits to learn whether there is a session already. Its state store lies at
    /// `db_path`, under a passphrase made up here.
    pub fn new(homeserver: Option<String>, username: Option<String>, db_path: String) -> (r: Self)
        ensures
            r@.stage == LoginStage::Metadata,
            r@.homeserver == crate::text::opt_text(homeserver),
            r@.username == crate::text::opt_text(username),
            r@.db_path == db_path@,
            r@.password.len() == 0,
            r@.existing.len() == 0,
            r@.account is None,
            r@.has_account_when_due(),
            r@.failure is None,
            r@.storage == CredentialStorage::Keyring,
            r@.db_passphrase.len() == PASSPHRASE_LENGTH,
            forall|i: int| 0 <= i < PASSPHRASE_LENGTH ==> alphanumeric(
                #[trigger] r@.db_passphrase[i],
            ),
    {
        Login {
            stage: LoginStage::Metadata,
            homeserver,
            username,
            password: String::new(),
            db_passphrase: generate_passphrase(),
            db_path,
            existing: String::new(),
            account: None,
            storage: CredentialStorage::Keyring,
            failure: None,
        }
    }

    /// What the login waits for.
    pub fn stage(&self) -> (r: LoginStage)
        ensures
            r == self@.stage,
    {
        self.stage
    }

    /// The homeserver to connect to: as given or typed in.
    pub fn homeserver(&self) -> (r: &str)
        ensures
            r@ == LoginView::text_or_nothing(self@.homeserver),
    {
        match &self.homeserver {
            Some(s) => s.as_str(),
            None => "",
        }
    }

    /// The user name to log in with: as given or typed in.
    pub fn username(&self) -> (r: &str)
        ensures
            r@ == LoginView::text_or_nothing(self@.username),
    {
        match &self.username {
            Some(s) => s.as_str(),
            None => "",
        }
    }

    /// The password as typed in.
    pub fn password(&self) -> (r: &str)
        ensures
            r@ == self@.password,
    {
        self.password.as_str()
    }

    /// The passphrase of the state store.
    pub fn db_passphrase(&self) -> (r: &str)
        ensures
            r@ == self@.db_passphrase,
    {
        self.db_passphrase.as_str()
    }

    /// The secrets to keep, once there is a session.
    pub fn credentials(&self) -> (r: Option<StoredCredentials>)
        ensures
            r is Some <==> self@.account is Some,
            r matches Some(c) ==> c.session_json@ == self@.account->0.session_json
                && c.db_passphrase@ == self@.db_passphrase,
    {
        match &self.account {
            Some(a) => Some(
                StoredCredentials {
                    session_json: a.session_json.clone(),
                    db_passphrase: self.db_passphrase.clone(),
                },
            ),
            None => None,
        }
    }

    /// The metadata to write, once there is a session.
    pub fn metadata(&self) -> (r: Option<SessionMetadata>)
        ensures
            r is Some <==> self@.account is Some,
            r matches Some(m) ==> m@ == (SessionMetadataView {
                homeserver_url: self@.account->0.homeserver_url,
                user_id: self@.account->0.user_id,
                device_id: self@.account->0.device_id,
                db_path: self@.db_path,
                credential_storage: self@.storage,
            }),
    {
        match &self.account {
            Some(a) => Some(
                SessionMetadata {
                    homeserver_url: a.homeserver_url.clone(),
                    user_id: a.user_id.clone(),
                    device_id: a.device_id.clone(),
                    db_path: self.db_path.clone(),
                    credential_storage: self.storage,
                },
            ),
            None => None,
        }
    }

    /// Why the login failed, once it did.
    pub fn error(&self) -> (r: Option<SessionError>)
        ensures
            match self@.failure {
                None => r is None,
                Some(LoginFailure::AlreadyLoggedIn) => r is Some && r->0 is AlreadyLoggedIn
                    && r->0->AlreadyLoggedIn_0@ == self@.existing,
                Some(LoginFailure::NoSessionReturned) => r == Some(SessionError::NoSessionReturned),
                Some(LoginFailure::NoSessionMeta) => r == Some(SessionError::NoSessionMeta),
                Some(LoginFailure::Outside) => r == Some(SessionError::Outside),
                Some(LoginFailure::LoginFailed) => r == Some(SessionError::LoginFailed),
            },
    {
        match self.failure {
            None => None,
            Some(LoginFailure::AlreadyLoggedIn) => Some(
                SessionError::AlreadyLoggedIn(self.existing.clone()),
            ),
            Some(LoginFailure::NoSessionReturned) => Some(SessionError::NoSessionReturned),
            Some(LoginFailure::NoSessionMeta) => Some(SessionError::NoSessionMeta),
            Some(LoginFailure::Outside) => Some(SessionError::Outside),
            Some(LoginFailure::LoginFailed) => Some(SessionError::LoginFailed),
        }
    }

    /// The login failed.
    fn fail(&mut self, failure: LoginFailure)
        ensures
            final(self)@ == old(self)@.failed(failure),
    {
        self.stage = LoginStage::Failed;
        self.failure = Some(failure);
    }

    /// The login failed with a store left to remove.
    fn unwind(&mut self, failure: LoginFailure)
        ensures
            final(self)@ == old(self)@.unwound(failure),
    {
        self.stage = LoginStage::Cleanup;
        self.failure = Some(failure);
    }

    /// The metadata remains to be written.
    fn save(&mut self, storage: CredentialStorage)
        ensures
            final(self)@ == old(self)@.saving(storage),
    {
        self.stage = LoginStage::SaveMetadata;
        self.storage = storage;
    }

    /// Turns to the next question to the user.
    fn ask(&mut self)
        ensures
            final(self)@ == old(self)@.asking(),
    {
        if self.homeserver.is_none() {
            self.stage = LoginStage::Homeserver;
        } else if self.username.is_none() {
            self.stage = LoginStage::Username;
        } else {
            self.stage = LoginStage::Password;
        }
    }

    /// Takes note of what became of what the login waits for.
    pub fn advance(&mut self, event: LoginEvent)
        ensures
            final(self)@ == old(self)@.next(event),
            old(self)@.has_account_when_due() ==> final(self)@.has_account_when_due(),
    {
        match self.stage {
            LoginStage::Metadata => match event {
                LoginEvent::Existing(Some(user_id)) => {
                    self.existing = user_id;
                    self.fail(LoginFailure::AlreadyLoggedIn);
                },
                LoginEvent::Existing(None) => self.ask(),
                LoginEvent::Failed => self.fail(LoginFailure::Outside),
                _ => {},
            },
            LoginStage::Homeserver => match event {
                LoginEvent::Line(line) => {
                    self.homeserver = Some(trim(line.as_str()));
                    self.ask();
                },
                LoginEvent::Failed => self.fail(LoginFailure::Outside),
                _ => {},
            },
            LoginStage::Username => match event {
                LoginEvent::Line(line) => {
                    self.username = Some(trim(line.as_str()));
                    self.stage = LoginStage::Password;
                },
                LoginEvent::Failed => self.fail(LoginFailure::Outside),
                _ => {},
            },
            LoginStage::Password => match event {
                LoginEvent::Line(line) => {
                    self.password = line;
                    self.stage = LoginStage::StaleStore;
                },
                LoginEvent::Failed => self.fail(LoginFailure::Outside),
                _ => {},
            },
            LoginStage::StaleStore => match event {
                LoginEvent::Done | LoginEvent::Failed => self.stage = LoginStage::Client,
                _ => {},
            },
            LoginStage::Client => match event {
                LoginEvent::Done => self.stage = LoginStage::Account,
                LoginEvent::Failed => self.unwind(LoginFailure::Outside),
                _ => {},
            },
            LoginStage::Account => match event {
                LoginEvent::Done => self.stage = LoginStage::Session,
                LoginEvent::Failed => self.unwind(LoginFailure::LoginFailed),
                _ => {},
            },
            LoginStage::Session => match event {
                LoginEvent::Session(account) => {
                    self.account = Some(account);
                    self.stage = LoginStage::Probe;
                },
                LoginEvent::NoSession => self.fail(LoginFailure::NoSessionReturned),
                LoginEvent::NoSessionMeta => self.fail(LoginFailure::NoSessionMeta),
                LoginEvent::Failed => self.fail(LoginFailure::Outside),
                _ => {},
            },
            LoginStage::Probe => match event {
                LoginEvent::Keyring(answer) => if is_keyring_available(answer) {
                    self.stage = LoginStage::KeyringStore;
                } else {
                    self.stage = LoginStage::Choice;
                },
                _ => {},
            },
            LoginStage::KeyringStore => match event {
                LoginEvent::Done => self.save(CredentialStorage::Keyring),
                LoginEvent::Failed => self.fail(LoginFailure::Outside),
                _ => {},
            },
            LoginStage::Choice => match event {
                LoginEvent::Line(line) => if same_text(trim(line.as_str()).as_str(), "2") {
                    self.stage = LoginStage::FileStore;
                } else {
                    self.save(CredentialStorage::Keyring);
                },
                LoginEvent::Failed => self.fail(LoginFailure::Outside),
                _ => {},
            },
            LoginStage::FileStore => match event {
                LoginEvent::Done => self.save(CredentialStorage::File),
                LoginEvent::Failed => self.fail(LoginFailure::Outside),
                _ => {},
            },
            LoginStage::SaveMetadata => match event {
                LoginEvent::Done => self.stage = LoginStage::LoggedIn,
                LoginEvent::Failed => self.fail(LoginFailure::Outside),
                _ => {},
            },
            LoginStage::Cleanup => match event {
                LoginEvent::Done | LoginEvent::Failed => self.stage = LoginStage::Failed,
                _ => {},
            },
            LoginStage::LoggedIn => {},
            LoginStage::Failed => {},
        }
    }
}

/// What the logout waits for.
#[derive(Debug, Clone, Copy, PartialEq, Eq, Structural)]
pub enum LogoutStage {
    /// The server's word on the end of the session.
    Server,
    /// The removal of the secrets from the keyring.
    Keyring,
    /// The removal of the secrets from their file.
    CredentialsFile,
    /// The removal of the metadata.
    Metadata,
    /// The removal of the state store.
    Store,
    /// Nothing: the session is gone from here.
    LoggedOut,
    /// Nothing: what could not be removed is still there.
    Failed,
}

/// A logout on its way. It is told whether what it waits for was done, and then waits for the
/// next thing.
pub struct Logout {
    stage: LogoutStage,
    meta: SessionMetadata,
    server_ok: bool,
}

/// What a `Logout` knows.
#[verifier::ext_equal]
pub struct LogoutView {
    pub stage: LogoutStage,
    pub meta: SessionMetadataView,
    pub server_ok: bool,
}

impl View for Logout {
    type V = LogoutView;

    closed spec fn view(&self) -> LogoutView {
        LogoutView { stage: self.stage, meta: self.meta@, server_ok: self.server_ok }
    }
}

impl LogoutView {
    /// The same logout at another stage.
    pub open spec fn at(self, stage: LogoutStage) -> LogoutView {
        LogoutView { stage, ..self }
    }

    /// Whether nothing more is waited for.
    pub open spec fn over(self) -> bool {
        self.stage == LogoutStage::LoggedOut || self.stage == LogoutStage::Failed
    }

    /// The logout after what it waits for was done or failed. That the server or the keyring
    /// could not be reached, or the secrets not removed, does not stop it.
    pub open spec fn next(self, ok: bool) -> LogoutView {
        match self.stage {
            LogoutStage::Server => LogoutView {
                server_ok: ok,
                ..self.at(
                    match self.meta.credential_storage {
                        CredentialStorage::Keyring => LogoutStage::Keyring,
                        CredentialStorage::File => LogoutStage::CredentialsFile,
                    },
                )
            },
            LogoutStage::Keyring => self.at(LogoutStage::Metadata),
            LogoutStage::CredentialsFile => self.at(LogoutStage::Metadata),
            LogoutStage::Metadata => if ok {
                self.at(LogoutStage::Store)
            } else {
                self.at(LogoutStage::Failed)
            },
            LogoutStage::Store => if ok {
                self.at(LogoutStage::LoggedOut)
            } else {
                self.at(LogoutStage::Failed)
            },
            LogoutStage::LoggedOut => self,
            LogoutStage::Failed => self,
        }
    }
}

impl Logout {
    /// A logout from the session, where there is one.
    pub fn new(meta: &Option<SessionMetadata>) -> (r: Result<Self, SessionError>)
        ensures
            match *meta {
                Some(m) => r is Ok && r->Ok_0@ == (LogoutView {
                    stage: LogoutStage::Server,
                    meta: m@,
                    server_ok: false,
                }),
                None => r is Err && r->Err_0 == SessionError::NotLoggedIn,
            },
    {
        match meta {
            Some(m) => Ok(
                Logout { stage: LogoutStage::Server, meta: m.clone(), server_ok: false },
            ),
            None => Err(SessionError::NotLoggedIn),
        }
    }

    /// What the logout waits for.
    pub fn stage(&self) -> (r: LogoutStage)
        ensures
            r == self@.stage,
    {
        self.stage
    }

    /// Takes note of whether what the logout waits for was done.
    pub fn advance(&mut self, ok: bool)
        ensures
            final(self)@ == old(self)@.next(ok),
    {
        match self.stage {
            LogoutStage::Server => {
                self.server_ok = ok;
                match self.meta.credential_storage {
                    CredentialStorage::Keyring => self.stage = LogoutStage::Keyring,
                    CredentialStorage::File => self.stage = LogoutStage::CredentialsFile,
                }
            },
            LogoutStage::Keyring => self.stage = LogoutStage::Metadata,
            LogoutStage::CredentialsFile => self.stage = LogoutStage::Metadata,
            LogoutStage::Metadata => if ok {
                self.stage = LogoutStage::Store;
            } else {
                self.stage = LogoutStage::Failed;
            },
            LogoutStage::Store => if ok {
                self.stage = LogoutStage::LoggedOut;
            } else {
                self.stage = LogoutStage::Failed;
            },
            LogoutStage::LoggedOut => {},
            LogoutStage::Failed => {},
        }
    }

    /// What the user is told where the server could not be reached.
    pub fn server_warning(&self) -> (r: String)
        ensures
            r@ == "could not remove session from server. you may need to remove session "@
                + self@.meta.device_id + " manually from another client."@,
    {
        join(
            "could not remove session from server. you may need to remove session ",
            self.meta.device_id.as_str(),
        ).concat(" manually from another client.")
    }

    /// What the user is told in the end.
    pub fn farewell(&self) -> (r: String)
        ensures
            r@ == if self@.server_ok {
                "logged out and cleaned up session for "@ + self@.meta.user_id
            } else {
                "local session cleaned up for "@ + self@.meta.user_id
            },
    {
        if self.server_ok {
            join("logged out and cleaned up session for ", self.meta.user_id.as_str())
        } else {
            join("local session cleaned up for ", self.meta.user_id.as_str())
        }
    }
}

/// The line that confirms a login.
pub fn welcome(user_id: &str, device_id: &str) -> (r: String)
    ensures
        r@ == "logged in as "@ + user_id@ + " (session: "@ + device_id@ + ")"@,
{
    join("logged in as ", user_id).concat(" (session: ").concat(device_id).concat(")")
}

/// What is printed about the session.
pub open spec fn status_texts(meta: Option<SessionMetadata>) -> Seq<Seq<char>> {
    match meta {
        None => seq!["not logged in. run `psst login` to get started."@],
        Some(m) => seq![
            "user:        "@ + m.user_id@,
            "session ID:  "@ + m.device_id@,
            "homeserver:  "@ + m.homeserver_url@,
            "credentials: "@ + match m.credential_storage {
                CredentialStorage::Keyring => "system keyring"@,
                CredentialStorage::File => "file (less secure)"@,
            },
            "store:       "@ + m.db_path@,
        ],
    }
}

/// The lines to print about the session.
pub fn status(meta: &Option<SessionMetadata>) -> (r: Vec<String>)
    ensures
        texts(r@) == status_texts(*meta),
{
    let mut lines: Vec<String> = Vec::new();
    match meta {
        None => lines.push("not logged in. run `psst login` to get started.".to_owned()),
        Some(m) => {
            let kept = match m.credential_storage {
                CredentialStorage::Keyring => "system keyring",
                CredentialStorage::File => "file (less secure)",
            };
            lines.push(join("user:        ", m.user_id.as_str()));
            lines.push(join("session ID:  ", m.device_id.as_str()));
            lines.push(join("homeserver:  ", m.homeserver_url.as_str()));
            lines.push(join("credentials: ", kept));
            lines.push(join("store:       ", m.db_path.as_str()));
        },
    }
    assert(texts(lines@) =~= status_texts(*meta));
    lines
}

/// A joined room as the list shows it.
#[derive(Debug)]
pub struct ListedRoom {
    pub room_id: String,
    pub is_encrypted: bool,
    /// Its name, where it could be found out.
    pub name: Option<String>,
}

/// A line of the room list: two columns of fixed width and one behind them.
pub open spec fn room_row(id: Seq<char>, encrypted: Seq<char>, name: Seq<char>) -> Seq<char> {
    padded(id, 44) + " "@ + padded(encrypted, 6) + " "@ + name
}

/// The line for a room. One without a known name shows a question mark.
pub open spec fn listed(room: ListedRoom) -> Seq<char> {
    room_row(
        room.room_id@,
        if room.is_encrypted {
            "yes"@
        } else {
            "no"@
        },
        match room.name {
            Some(name) => name@,
            None => "?"@,
        },
    )
}

/// What is printed about the joined rooms: a heading, a line each, and their number.
pub open spec fn room_list(rooms: Seq<ListedRoom>) -> Seq<Seq<char>> {
    if rooms.len() == 0 {
        seq!["no joined rooms."@]
    } else {
        seq![room_row("ROOM ID"@, "E2EE"@, "NAME"@), repeated('-', 80)] + Seq::new(
            rooms.len(),
            |i: int| listed(rooms[i]),
        ) + seq![""@, decimal_digits(rooms.len()) + " rooms total"@]
    }
}

/// Writes a line of the room list.
fn write_row(id: &str, encrypted: &str, name: &str) -> (r: String)
    ensures
        r@ == room_row(id@, encrypted@, name@),
{
    pad_right(id, 44).concat(" ").concat(pad_right(encrypted, 6).as_str()).concat(" ").concat(name)
}

/// The lines to print about the joined rooms.
pub fn list_rooms(rooms: &Vec<ListedRoom>) -> (r: Vec<String>)
    ensures
        texts(r@) == room_list(rooms@),
{
    let mut lines: Vec<String> = Vec::new();
    if rooms.len() == 0 {
        lines.push("no joined rooms.".to_owned());
        assert(texts(lines@) =~= room_list(rooms@));
        return lines;
    }
    lines.push(write_row("ROOM ID", "E2EE", "NAME"));
    lines.push(repeat_char('-', 80));
    let ghost head = seq![room_row("ROOM ID"@, "E2EE"@, "NAME"@), repeated('-', 80)];
    let ghost rows = Seq::new(rooms@.len(), |i: int| listed(rooms@[i]));
    assert(texts(lines@) =~= head + rows.take(0));
    let mut i: usize = 0;
    while i < rooms.len()
        invariant
            i <= rooms@.len(),
            rows == Seq::new(rooms@.len(), |i: int| listed(rooms@[i])),
            texts(lines@) == head + rows.take(i as int),
        decreases rooms.len() - i,
    {
        let room = &rooms[i];
        let name = match &room.name {
            Some(name) => name.as_str(),
            None => "?",
        };
        let encrypted = if room.is_encrypted {
            "yes"
        } else {
            "no"
        };
        let ghost before = lines@;
        lines.push(write_row(room.room_id.as_str(), encrypted, name));
        assert(texts(lines@) =~= texts(before).push(rows[i as int]));
        assert(texts(lines@) =~= head + rows.take(i + 1));
        i += 1;
    }
    lines.push("".to_owned());
    lines.push(decimal(rooms.len()).concat(" rooms total"));
    assert(rows.take(i as int) =~= rows);
    assert(texts(lines@) =~= room_list(rooms@));
    lines
}

/// The latest event of a room.
#[derive(Debug)]
pub enum LatestEvent {
    /// There is none.
    Nothing,
    /// One without an id.
    WithoutId,
    /// One with this id.
    Id(String),
}

/// Tells which event of a room a read receipt is to be sent for, if there is one.
pub fn receipt_target(latest: LatestEvent) -> (r: Result<Option<String>, SessionError>)
    ensures
        match latest {
            LatestEvent::Nothing => r == Ok::<Option<String>, SessionError>(None),
            LatestEvent::WithoutId => r == Err::<Option<String>, SessionError>(
                SessionError::NoEventId,
            ),
            LatestEvent::Id(id) => r == Ok::<Option<String>, SessionError>(Some(id)),
        },
{
    match latest {
        LatestEvent::Nothing => Ok(None),
        LatestEvent::WithoutId => Err(SessionError::NoEventId),
        LatestEvent::Id(id) => Ok(Some(id)),
    }
}

/// What the user is told once a room is marked as read, or had nothing to mark.
pub fn mark_read_report(room_id: &str, marked: bool) -> (r: String)
    ensures
        r@ == if marked {
            "marked "@ + room_id@ + " as read"@
        } else {
            "no events in room to mark as read"@
        },
{
    if marked {
        join("marked ", room_id).concat(" as read")
    } else {
        "no events in room to mark as read".to_owned()
    }
}

} // verus!
