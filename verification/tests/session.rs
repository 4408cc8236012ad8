use psst::session::{
    credential_source, device_name, generate_passphrase, is_deleted, is_keyring_available,
    keyring_account, keyring_service, list_rooms, mark_read_report, receipt_target, status,
    welcome, Account, CredentialStorage, KeyringAnswer, LatestEvent, ListedRoom, Login, LoginEvent,
    LoginStage, Logout, LogoutStage, SessionError, SessionMetadata,
};

fn meta(storage: CredentialStorage) -> SessionMetadata {
    SessionMetadata {
        homeserver_url: "https://matrix.example.com/".into(),
        user_id: "@me:example.com".into(),
        device_id: "DEVICE".into(),
        db_path: "/data/store".into(),
        credential_storage: storage,
    }
}

#[test]
fn keyring_names() {
    assert_eq!(keyring_service(), "psst");
    assert_eq!(keyring_account("@me:example.com"), "credentials:@me:example.com");
}

#[test]
fn keyring_answers() {
    assert!(is_keyring_available(KeyringAnswer::Done));
    assert!(is_keyring_available(KeyringAnswer::NoEntry));
    assert!(is_keyring_available(KeyringAnswer::OtherError));
    assert!(!is_keyring_available(KeyringAnswer::PlatformFailure));
    assert!(!is_keyring_available(KeyringAnswer::NoStorageAccess));
    assert!(!is_keyring_available(KeyringAnswer::Unaddressable));
    assert!(is_deleted(KeyringAnswer::Done));
    assert!(is_deleted(KeyringAnswer::NoEntry));
    assert!(!is_deleted(KeyringAnswer::OtherError));
    assert!(!is_deleted(KeyringAnswer::PlatformFailure));
}

#[test]
fn passphrases_are_long_and_plain() {
    let a = generate_passphrase();
    let b = generate_passphrase();
    assert_eq!(a.len(), 64);
    assert!(a.chars().all(|c| c.is_ascii_alphanumeric()));
    assert_ne!(a, b);
    assert!(a.chars().any(|c| c != a.chars().next().unwrap()));
}

#[test]
fn source_of_credentials() {
    assert!(matches!(
        credential_source(&Some(meta(CredentialStorage::Keyring))),
        Ok(CredentialStorage::Keyring)
    ));
    assert!(matches!(
        credential_source(&Some(meta(CredentialStorage::File))),
        Ok(CredentialStorage::File)
    ));
    let error = credential_source(&None).unwrap_err();
    assert_eq!(error.message(), "No session found. Run `psst login` first.");
}

#[test]
fn device_names_its_host() {
    assert_eq!(device_name(Some("laptop")), "psst on laptop");
    assert_eq!(device_name(None), "psst on unknown");
}

fn account() -> Account {
    Account {
        user_id: "@me:example.com".into(),
        device_id: "DEVICE".into(),
        homeserver_url: "https://matrix.example.com/".into(),
        session_json: "{}".into(),
    }
}

fn login() -> Login {
    Login::new(Some("example.com".into()), Some("me".into()), "/data/store".into())
}

/// A login that has its session and waits for the keyring's answer.
fn at_probe() -> Login {
    let mut l = login();
    l.advance(LoginEvent::Existing(None));
    l.advance(LoginEvent::Line(" secret ".into()));
    l.advance(LoginEvent::Done);
    l.advance(LoginEvent::Done);
    l.advance(LoginEvent::Done);
    l.advance(LoginEvent::Session(account()));
    assert_eq!(l.stage(), LoginStage::Probe);
    l
}

#[test]
fn login_asks_for_what_is_missing() {
    let mut l = Login::new(None, None, "/data/store".into());
    assert_eq!(l.stage(), LoginStage::Metadata);
    l.advance(LoginEvent::Existing(None));
    assert_eq!(l.stage(), LoginStage::Homeserver);
    l.advance(LoginEvent::Line(" example.com\n".into()));
    assert_eq!(l.homeserver(), "example.com");
    assert_eq!(l.stage(), LoginStage::Username);
    l.advance(LoginEvent::Line("me\r\n".into()));
    assert_eq!(l.username(), "me");
    assert_eq!(l.stage(), LoginStage::Password);
    l.advance(LoginEvent::Line(" spaced ".into()));
    assert_eq!(l.password(), " spaced ");
    assert_eq!(l.stage(), LoginStage::StaleStore);
    l.advance(LoginEvent::Failed);
    assert_eq!(l.stage(), LoginStage::Client);
    let mut l = Login::new(None, Some("me".into()), "/data/store".into());
    l.advance(LoginEvent::Existing(None));
    l.advance(LoginEvent::Line("example.com".into()));
    assert_eq!(l.stage(), LoginStage::Password);
    let mut l = login();
    l.advance(LoginEvent::Existing(None));
    assert_eq!(l.stage(), LoginStage::Password);
}

#[test]
fn login_keeps_an_existing_session() {
    let mut l = login();
    l.advance(LoginEvent::Existing(Some("@me:example.com".into())));
    assert_eq!(l.stage(), LoginStage::Failed);
    assert_eq!(
        l.error().unwrap().message(),
        "Already logged in as @me:example.com. Run `psst logout` first."
    );
    l.advance(LoginEvent::Existing(None));
    assert_eq!(l.stage(), LoginStage::Failed);
}

#[test]
fn login_into_the_keyring() {
    let mut l = at_probe();
    assert_eq!(l.password(), " secret ");
    l.advance(LoginEvent::Keyring(KeyringAnswer::NoEntry));
    assert_eq!(l.stage(), LoginStage::KeyringStore);
    let creds = l.credentials().unwrap();
    assert_eq!(creds.session_json, "{}");
    assert_eq!(creds.db_passphrase, l.db_passphrase());
    l.advance(LoginEvent::Done);
    assert_eq!(l.stage(), LoginStage::SaveMetadata);
    let m = l.metadata().unwrap();
    assert_eq!(m.user_id, "@me:example.com");
    assert_eq!(m.device_id, "DEVICE");
    assert_eq!(m.homeserver_url, "https://matrix.example.com/");
    assert_eq!(m.db_path, "/data/store");
    assert_eq!(m.credential_storage, CredentialStorage::Keyring);
    l.advance(LoginEvent::Done);
    assert_eq!(l.stage(), LoginStage::LoggedIn);
    assert!(l.error().is_none());
    l.advance(LoginEvent::Failed);
    assert_eq!(l.stage(), LoginStage::LoggedIn);
}

#[test]
fn login_into_a_file_takes_a_choice() {
    let mut l = at_probe();
    l.advance(LoginEvent::Keyring(KeyringAnswer::NoStorageAccess));
    assert_eq!(l.stage(), LoginStage::Choice);
    l.advance(LoginEvent::Line(" 2\n".into()));
    assert_eq!(l.stage(), LoginStage::FileStore);
    l.advance(LoginEvent::Done);
    assert_eq!(l.metadata().unwrap().credential_storage, CredentialStorage::File);
    let mut l = at_probe();
    l.advance(LoginEvent::Keyring(KeyringAnswer::PlatformFailure));
    l.advance(LoginEvent::Line("1\n".into()));
    assert_eq!(l.stage(), LoginStage::SaveMetadata);
    assert_eq!(l.metadata().unwrap().credential_storage, CredentialStorage::Keyring);
}

#[test]
fn refused_login_removes_its_store() {
    let mut l = login();
    l.advance(LoginEvent::Existing(None));
    l.advance(LoginEvent::Line("secret".into()));
    l.advance(LoginEvent::Done);
    l.advance(LoginEvent::Done);
    assert_eq!(l.stage(), LoginStage::Account);
    assert!(l.credentials().is_none());
    assert!(l.metadata().is_none());
    l.advance(LoginEvent::Failed);
    assert_eq!(l.stage(), LoginStage::Cleanup);
    l.advance(LoginEvent::Done);
    assert_eq!(l.stage(), LoginStage::Failed);
    assert_eq!(l.error().unwrap().message(), "Login failed");
    let mut l = login();
    l.advance(LoginEvent::Existing(None));
    l.advance(LoginEvent::Line("secret".into()));
    l.advance(LoginEvent::Done);
    l.advance(LoginEvent::Failed);
    assert_eq!(l.stage(), LoginStage::Cleanup);
    l.advance(LoginEvent::Failed);
    assert_eq!(l.stage(), LoginStage::Failed);
    assert!(matches!(l.error(), Some(SessionError::Outside)));
}

#[test]
fn login_without_a_session_fails() {
    let waiting = || {
        let mut l = login();
        l.advance(LoginEvent::Existing(None));
        l.advance(LoginEvent::Line("secret".into()));
        l.advance(LoginEvent::Done);
        l.advance(LoginEvent::Done);
        l.advance(LoginEvent::Done);
        assert_eq!(l.stage(), LoginStage::Session);
        l
    };
    let mut l = waiting();
    l.advance(LoginEvent::NoSession);
    assert_eq!(l.error().unwrap().message(), "Login succeeded but no session returned");
    let mut l = waiting();
    l.advance(LoginEvent::NoSessionMeta);
    assert_eq!(l.error().unwrap().message(), "No session meta after login");
    assert_eq!(l.stage(), LoginStage::Failed);
}

#[test]
fn stray_events_change_nothing() {
    let mut l = login();
    l.advance(LoginEvent::Done);
    l.advance(LoginEvent::Line("x".into()));
    l.advance(LoginEvent::Keyring(KeyringAnswer::Done));
    assert_eq!(l.stage(), LoginStage::Metadata);
}

#[test]
fn logout_goes_on_without_the_server() {
    let mut l = Logout::new(&Some(meta(CredentialStorage::Keyring))).unwrap();
    assert_eq!(l.stage(), LogoutStage::Server);
    l.advance(false);
    assert_eq!(
        l.server_warning(),
        "could not remove session from server. you may need to remove session DEVICE manually from another client."
    );
    assert_eq!(l.stage(), LogoutStage::Keyring);
    l.advance(false);
    assert_eq!(l.stage(), LogoutStage::Metadata);
    l.advance(true);
    assert_eq!(l.stage(), LogoutStage::Store);
    l.advance(true);
    assert_eq!(l.stage(), LogoutStage::LoggedOut);
    assert_eq!(l.farewell(), "local session cleaned up for @me:example.com");
}

#[test]
fn logout_with_a_credentials_file() {
    let mut l = Logout::new(&Some(meta(CredentialStorage::File))).unwrap();
    l.advance(true);
    assert_eq!(l.stage(), LogoutStage::CredentialsFile);
    l.advance(true);
    assert_eq!(l.farewell(), "logged out and cleaned up session for @me:example.com");
    l.advance(false);
    assert_eq!(l.stage(), LogoutStage::Failed);
    assert_eq!(
        Logout::new(&None).err().unwrap().message(),
        "Not logged in. Nothing to do."
    );
}

#[test]
fn status_in_full() {
    assert_eq!(
        status(&None),
        vec!["not logged in. run `psst login` to get started.".to_string()]
    );
    assert_eq!(
        status(&Some(meta(CredentialStorage::File))),
        vec![
            "user:        @me:example.com".to_string(),
            "session ID:  DEVICE".to_string(),
            "homeserver:  https://matrix.example.com/".to_string(),
            "credentials: file (less secure)".to_string(),
            "store:       /data/store".to_string(),
        ]
    );
    assert_eq!(
        status(&Some(meta(CredentialStorage::Keyring)))[3],
        "credentials: system keyring"
    );
    assert_eq!(
        welcome("@me:example.com", "DEVICE"),
        "logged in as @me:example.com (session: DEVICE)"
    );
}

#[test]
fn room_list_in_full() {
    assert_eq!(list_rooms(&vec![]), vec!["no joined rooms.".to_string()]);
    let rooms = vec![
        ListedRoom {
            room_id: "!abc:example.com".into(),
            is_encrypted: true,
            name: Some("the room".into()),
        },
        ListedRoom {
            room_id: format!("!{}:example.com", "x".repeat(40)),
            is_encrypted: false,
            name: None,
        },
    ];
    let lines = list_rooms(&rooms);
    assert_eq!(lines.len(), 6);
    assert_eq!(lines[0], format!("{:<44} {:<6} {}", "ROOM ID", "E2EE", "NAME"));
    assert_eq!(lines[1], "-".repeat(80));
    assert_eq!(lines[2], format!("{:<44} {:<6} {}", "!abc:example.com", "yes", "the room"));
    assert_eq!(lines[3], format!("{:<44} {:<6} {}", rooms[1].room_id, "no", "?"));
    assert_eq!(lines[4], "");
    assert_eq!(lines[5], "2 rooms total");
    let many: Vec<ListedRoom> = (0..120)
        .map(|i| ListedRoom { room_id: format!("!{i}:x"), is_encrypted: false, name: None })
        .collect();
    assert_eq!(list_rooms(&many).last().unwrap(), "120 rooms total");
}

#[test]
fn marking_as_read() {
    assert!(matches!(receipt_target(LatestEvent::Nothing), Ok(None)));
    assert_eq!(
        receipt_target(LatestEvent::Id("$1".into())).unwrap(),
        Some("$1".to_string())
    );
    assert_eq!(
        receipt_target(LatestEvent::WithoutId).unwrap_err().message(),
        "latest event has no event ID"
    );
    assert_eq!(mark_read_report("!a:b", true), "marked !a:b as read");
    assert_eq!(mark_read_report("!a:b", false), "no events in room to mark as read");
}
