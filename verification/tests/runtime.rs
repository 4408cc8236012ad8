use psst::config::{Config, RoomOverride};
use psst::ids::UserId;
use psst::runtime::{
    asks_for_reload, count_rooms, default_log_filter, keeps_running, lacks_keys, on_sync_change,
    reload_config, unknown_room_warning, validate_overrides_against_joined, SyncAction, Wake,
    SHUTDOWN_FLUSH_DELAY_MILLIS, SYNC_RETRY_DELAY_SECS,
};
use psst::state::DaemonState;
use psst::verify::SyncReport;

fn state() -> DaemonState {
    DaemonState::new(UserId::new("@me:example.com".into()).unwrap())
}

#[test]
fn first_sync_ends_once() {
    let mut s = state();
    let other = Some(SyncReport::Other);
    assert_eq!(on_sync_change(&other, &mut s), SyncAction::Wait);
    assert!(!s.is_initial_sync_done());
    let running = Some(SyncReport::Running);
    assert_eq!(on_sync_change(&running, &mut s), SyncAction::Begin);
    assert!(s.is_initial_sync_done());
    assert_eq!(on_sync_change(&running, &mut s), SyncAction::Resumed);
    assert!(s.is_initial_sync_done());
}

#[test]
fn failed_sync_is_restarted_unless_the_session_is_gone() {
    let mut s = state();
    let error = |text: &str| Some(SyncReport::Error(text.into()));
    assert_eq!(on_sync_change(&error("timeout"), &mut s), SyncAction::Restart);
    assert_eq!(
        on_sync_change(&error("[401 / M_UNKNOWN_TOKEN] logged out"), &mut s),
        SyncAction::SessionInvalid
    );
    assert_eq!(on_sync_change(&Some(SyncReport::Terminated), &mut s), SyncAction::Stop);
    assert_eq!(on_sync_change(&None, &mut s), SyncAction::Stop);
    assert!(!s.is_initial_sync_done());
    assert_eq!(SYNC_RETRY_DELAY_SECS, 2);
    assert_eq!(SHUTDOWN_FLUSH_DELAY_MILLIS, 100);
}

#[test]
fn daemon_stops_on_signals_but_one() {
    assert!(keeps_running(Wake::Hangup));
    assert!(keeps_running(Wake::ConfigChanged));
    assert!(!keeps_running(Wake::Signal));
    assert!(!keeps_running(Wake::Exhausted));
    assert!(asks_for_reload(true, false));
    assert!(asks_for_reload(false, true));
    assert!(!asks_for_reload(false, false));
}

#[test]
fn failed_reload_keeps_the_configuration() {
    let mut current = Config::default();
    current.notifications.sound = "old".into();
    let (current, reloaded) = reload_config(current, None);
    assert!(!reloaded);
    assert_eq!(current.notifications.sound, "old");
    let mut new = Config::default();
    new.notifications.sound = "new".into();
    let (current, reloaded) = reload_config(current, Some(new));
    assert!(reloaded);
    assert_eq!(current.notifications.sound, "new");
}

#[test]
fn overrides_for_unknown_rooms_are_found() {
    let mut config = Config::default();
    for room in ["!a:x", "!b:x", "!c:x"] {
        config.notifications.rooms.overrides.insert(room.into(), RoomOverride::default());
    }
    assert_eq!(
        validate_overrides_against_joined(&config, &vec!["!b:x".into(), "!d:x".into()]),
        vec!["!a:x".to_string(), "!c:x".to_string()]
    );
    assert!(validate_overrides_against_joined(&Config::default(), &vec![]).is_empty());
    assert_eq!(
        unknown_room_warning("!a:x"),
        "room override `!a:x` is not a joined room. did you copy the wrong id from `psst list-rooms`?"
    );
}

#[test]
fn rooms_are_counted() {
    let counts = count_rooms(&vec![true, false, true]);
    assert_eq!((counts.rooms, counts.encrypted, counts.unencrypted), (3, 2, 1));
    assert!(lacks_keys(&counts, false));
    assert!(!lacks_keys(&counts, true));
    let none = count_rooms(&vec![]);
    assert_eq!((none.rooms, none.encrypted, none.unencrypted), (0, 0, 0));
    assert!(!lacks_keys(&none, false));
}

#[test]
fn log_is_off_unless_asked_for() {
    assert_eq!(default_log_filter(true), "info");
    assert_eq!(default_log_filter(false), "off");
}
