use std::future::Future;
use std::time::Duration;

use psst::clock::later_reading;
use psst::ids::UserId;
use psst::state::{
    DaemonState, NANOS_PER_SEC, NOTIF_CLEANUP_INTERVAL_SECS, NOTIF_HISTORY_CAP,
    NOTIF_HISTORY_TTL_SECS, SEEN_EVENTS_CAP,
};

const ROOM1: &str = "!room1:example.com";
const ROOM2: &str = "!room2:example.com";

fn evt(n: u32) -> String {
    format!("$evt{n}:example.com")
}

fn state() -> DaemonState {
    let mut s = DaemonState::new(UserId::new("@me:example.com".into()).unwrap());
    s.set_initial_sync_done();
    s
}

fn paused<F: Future<Output = ()>>(f: F) {
    tokio::runtime::Builder::new_current_thread()
        .enable_time()
        .start_paused(true)
        .build()
        .unwrap()
        .block_on(f)
}

fn ttl() -> Duration {
    Duration::from_secs(NOTIF_HISTORY_TTL_SECS)
}

#[test]
fn dedup_first_seen_returns_true() {
    let mut s = state();
    assert!(s.dedup(&evt(1)));
}

#[test]
fn dedup_repeat_returns_false() {
    let mut s = state();
    assert!(s.dedup(&evt(1)));
    assert!(!s.dedup(&evt(1)));
}

#[test]
fn record_notif_within_cap_keeps_all() {
    let mut s = state();
    for i in 0..50 {
        s.record_notif(ROOM1, format!("tag:{i}"), evt(i), 0);
    }
    let tags = s.drain_room_tags(ROOM1);
    assert_eq!(tags.len(), 50);
}

#[test]
fn record_notif_at_cap_evicts_oldest() {
    let mut s = state();
    for i in 0..(NOTIF_HISTORY_CAP + 5) as u32 {
        s.record_notif(ROOM1, format!("tag:{i}"), evt(i), 0);
    }
    let tags = s.drain_room_tags(ROOM1);
    assert_eq!(tags.len(), NOTIF_HISTORY_CAP);
    assert_eq!(tags.first().unwrap(), "tag:5");
    assert_eq!(tags.last().unwrap(), &format!("tag:{}", NOTIF_HISTORY_CAP + 4));
}

#[test]
fn record_notif_expires_old_on_insert() {
    paused(async {
        let mut s = state();
        s.record_notif(ROOM1, "old".into(), evt(1), 0);
        tokio::time::advance(ttl() + Duration::from_secs(1)).await;
        s.record_notif(ROOM1, "new".into(), evt(2), 0);
        let tags = s.drain_room_tags(ROOM1);
        assert_eq!(tags, vec!["new".to_string()]);
    });
}

#[test]
fn lookup_tag_finds_existing() {
    let mut s = state();
    s.record_notif(ROOM1, "msg:abc".into(), evt(1), 0);
    assert_eq!(s.lookup_tag(ROOM1, &evt(1)), Some("msg:abc".to_string()));
}

#[test]
fn lookup_tag_returns_none_when_event_absent() {
    let mut s = state();
    s.record_notif(ROOM1, "msg:abc".into(), evt(1), 0);
    assert_eq!(s.lookup_tag(ROOM1, &evt(2)), None);
}

#[test]
fn lookup_tag_returns_none_when_room_unknown() {
    let mut s = state();
    s.record_notif(ROOM1, "msg:abc".into(), evt(1), 0);
    assert_eq!(s.lookup_tag(ROOM2, &evt(1)), None);
}

#[test]
fn drain_room_tags_returns_all_and_clears() {
    let mut s = state();
    s.record_notif(ROOM1, "a".into(), evt(1), 0);
    s.record_notif(ROOM1, "b".into(), evt(2), 0);
    let tags = s.drain_room_tags(ROOM1);
    assert_eq!(tags, vec!["a".to_string(), "b".to_string()]);
    let tags2 = s.drain_room_tags(ROOM1);
    assert!(tags2.is_empty());
}

#[test]
fn drain_room_tags_returns_empty_for_unknown_room() {
    let mut s = state();
    assert!(s.drain_room_tags(ROOM1).is_empty());
}

#[test]
fn cleanup_expired_notifs_drops_old_keeps_fresh() {
    paused(async {
        let mut s = state();
        s.record_notif(ROOM1, "old".into(), evt(1), 0);
        tokio::time::advance(ttl() + Duration::from_secs(1)).await;
        s.record_notif(ROOM1, "fresh".into(), evt(2), 0);
        s.cleanup_expired_notifs();
        let tags = s.drain_room_tags(ROOM1);
        assert_eq!(tags, vec!["fresh".to_string()]);
    });
}

#[test]
fn cleanup_removes_empty_rooms() {
    paused(async {
        let mut s = state();
        s.record_notif(ROOM1, "old".into(), evt(1), 0);
        assert!(s.remembers_room(ROOM1));
        tokio::time::advance(ttl() + Duration::from_secs(1)).await;
        s.cleanup_expired_notifs();
        assert!(!s.remembers_room(ROOM1));
    });
}

#[test]
fn debounce_first_call_returns_false() {
    paused(async {
        let s = state();
        assert!(!s.is_within_debounce(ROOM1, 5));
    });
}

#[test]
fn debounce_within_window_returns_true() {
    paused(async {
        let mut s = state();
        s.mark_notification(ROOM1);
        tokio::time::advance(Duration::from_secs(2)).await;
        assert!(s.is_within_debounce(ROOM1, 5));
    });
}

#[test]
fn debounce_after_window_returns_false() {
    paused(async {
        let mut s = state();
        s.mark_notification(ROOM1);
        tokio::time::advance(Duration::from_secs(10)).await;
        assert!(!s.is_within_debounce(ROOM1, 5));
    });
}

#[test]
fn debounce_zero_seconds_disables() {
    let mut s = state();
    s.mark_notification(ROOM1);
    assert!(!s.is_within_debounce(ROOM1, 0));
}

#[test]
fn apply_debounce_silences_within_window_when_not_bypassed() {
    paused(async {
        let mut s = state();
        let _ = s.apply_debounce(ROOM1, 5, false, true);
        tokio::time::advance(Duration::from_secs(2)).await;
        let final_sound = s.apply_debounce(ROOM1, 5, false, true);
        assert!(!final_sound);
    });
}

#[test]
fn apply_debounce_keeps_sound_when_bypassed() {
    paused(async {
        let mut s = state();
        let _ = s.apply_debounce(ROOM1, 5, false, true);
        tokio::time::advance(Duration::from_secs(2)).await;
        let final_sound = s.apply_debounce(ROOM1, 5, true, true);
        assert!(final_sound);
    });
}

#[test]
fn drain_room_tags_up_to_dismisses_only_old() {
    let mut s = state();
    s.record_notif(ROOM1, "old:1".into(), evt(1), 100);
    s.record_notif(ROOM1, "old:2".into(), evt(2), 200);
    s.record_notif(ROOM1, "fresh:3".into(), evt(3), 400);

    let dismissed = s.drain_room_tags_up_to(ROOM1, 250);
    assert_eq!(dismissed, vec!["old:1".to_string(), "old:2".to_string()]);

    let remaining = s.drain_room_tags(ROOM1);
    assert_eq!(remaining, vec!["fresh:3".to_string()]);
}

#[test]
fn drain_room_tags_up_to_returns_empty_for_unknown_room() {
    let mut s = state();
    assert!(s.drain_room_tags_up_to(ROOM1, 1_000_000).is_empty());
}

#[test]
fn remove_by_event_id_finds_and_removes() {
    let mut s = state();
    s.record_notif(ROOM1, "msg:abc".into(), evt(1), 0);
    let tag = s.remove_by_event_id(ROOM1, &evt(1));
    assert_eq!(tag, Some("msg:abc".to_string()));
    assert_eq!(s.lookup_tag(ROOM1, &evt(1)), None);
}

#[test]
fn remove_by_event_id_returns_none_when_unknown() {
    let mut s = state();
    s.record_notif(ROOM1, "msg:abc".into(), evt(1), 0);
    assert_eq!(s.remove_by_event_id(ROOM1, &evt(99)), None);
}

#[test]
fn remove_by_tag_finds_and_removes() {
    let mut s = state();
    s.record_notif(ROOM1, "call:abc".into(), evt(1), 0);
    assert!(s.remove_by_tag(ROOM1, "call:abc"));
    assert_eq!(s.lookup_tag(ROOM1, &evt(1)), None);
}

#[test]
fn remove_by_tag_returns_false_when_unknown() {
    let mut s = state();
    s.record_notif(ROOM1, "call:abc".into(), evt(1), 0);
    assert!(!s.remove_by_tag(ROOM1, "call:xyz"));
}

#[test]
fn drain_after_record_clears_history() {
    let mut s = state();
    for i in 1..=5 {
        s.record_notif(ROOM1, format!("tag:{i}"), evt(i), 0);
    }
    let drained = s.drain_room_tags(ROOM1);
    assert_eq!(drained.len(), 5);
    assert_eq!(s.drain_room_tags(ROOM1).len(), 0);
}

#[test]
fn other_seen_events_are_forgotten_at_the_limit() {
    let mut s = state();
    for i in 0..SEEN_EVENTS_CAP as u32 {
        assert!(s.dedup(&evt(i)));
    }
    assert!(!s.dedup(&evt(0)));
    assert!(s.dedup("$one:too.many"));
    assert!(!s.dedup("$one:too.many"));
    assert!(s.dedup(&evt(0)));
    assert!(!s.dedup(&evt(0)));
    assert!(!s.dedup("$one:too.many"));
}

#[test]
fn expiry_is_exact() {
    let life = NOTIF_HISTORY_TTL_SECS as u128 * NANOS_PER_SEC;
    let mut s = state();
    s.record_notif_at(ROOM1, "a".into(), evt(1), 0, 10);
    s.record_notif_at(ROOM1, "b".into(), evt(2), 0, 20);
    s.cleanup_expired_notifs_at(10 + life);
    assert_eq!(s.lookup_tag(ROOM1, &evt(1)), Some("a".to_string()));
    s.cleanup_expired_notifs_at(11 + life);
    assert_eq!(s.lookup_tag(ROOM1, &evt(1)), None);
    assert_eq!(s.lookup_tag(ROOM1, &evt(2)), Some("b".to_string()));
    s.cleanup_expired_notifs_at(11 + life);
    assert_eq!(s.drain_room_tags(ROOM1), vec!["b".to_string()]);
}

#[test]
fn debounce_window_is_exact() {
    let mut s = state();
    s.mark_notification_at(ROOM1, 100);
    assert!(s.is_within_debounce_at(ROOM1, 5, 99 + 5 * NANOS_PER_SEC));
    assert!(!s.is_within_debounce_at(ROOM1, 5, 100 + 5 * NANOS_PER_SEC));
    assert!(s.is_within_debounce_at(ROOM1, 5, 0));
    assert!(!s.is_within_debounce_at(ROOM2, 5, 100));
    assert!(!s.apply_debounce_at(ROOM1, 5, true, false, 101));
    assert!(s.is_within_debounce_at(ROOM1, 1, NANOS_PER_SEC + 100));
}

#[test]
fn silent_notifications_restart_the_window() {
    let mut s = state();
    assert!(s.apply_debounce_at(ROOM1, 5, false, true, 0));
    assert!(!s.apply_debounce_at(ROOM1, 5, false, true, 4 * NANOS_PER_SEC));
    assert!(!s.apply_debounce_at(ROOM1, 5, false, true, 8 * NANOS_PER_SEC));
    assert!(s.apply_debounce_at(ROOM1, 5, false, true, 13 * NANOS_PER_SEC));
}

#[test]
fn rooms_do_not_mix() {
    let mut s = state();
    s.record_notif(ROOM1, "a".into(), evt(1), 5);
    s.record_notif(ROOM2, "b".into(), evt(1), 5);
    assert_eq!(s.remove_by_event_id(ROOM1, &evt(1)), Some("a".to_string()));
    assert_eq!(s.lookup_tag(ROOM2, &evt(1)), Some("b".to_string()));
    assert!(s.drain_room_tags_up_to(ROOM1, 5).is_empty());
    assert_eq!(s.drain_room_tags_up_to(ROOM2, 5), vec!["b".to_string()]);
    assert!(!s.remembers_room(ROOM2));
}

#[test]
fn first_entry_of_an_event_is_found() {
    let mut s = state();
    s.record_notif(ROOM1, "first".into(), evt(1), 0);
    s.record_notif(ROOM1, "second".into(), evt(1), 0);
    assert_eq!(s.lookup_tag(ROOM1, &evt(1)), Some("first".to_string()));
    assert_eq!(s.remove_by_event_id(ROOM1, &evt(1)), Some("first".to_string()));
    assert_eq!(s.lookup_tag(ROOM1, &evt(1)), Some("second".to_string()));
}

#[test]
fn state_knows_its_user() {
    let mut s = DaemonState::new(UserId::new("@me:example.com".into()).unwrap());
    assert_eq!(s.own_user_id().as_str(), "@me:example.com");
    assert!(!s.is_initial_sync_done());
    assert_eq!(s.display_name(), None);
    s.set_display_name("Me".into());
    s.set_initial_sync_done();
    assert_eq!(s.display_name(), Some("Me"));
    assert!(s.is_initial_sync_done());
    assert_eq!(NOTIF_CLEANUP_INTERVAL_SECS, 3_600);
    assert_eq!(NOTIF_HISTORY_TTL_SECS, 7 * 24 * 60 * 60);
}

#[test]
fn clock_does_not_go_back() {
    assert_eq!(later_reading(7, 5), 7);
    assert_eq!(later_reading(5, 7), 7);
    assert_eq!(later_reading(5, 5), 5);
}
