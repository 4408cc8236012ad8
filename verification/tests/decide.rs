use std::future::Future;
use std::time::Duration;

use psst::clock::LocalTime;
use psst::config::{Config, EditMode, NotifyLevel, RoomOverride};
use psst::decide::{
    decide_call_notif, decide_call_notif_at, decide_invite_notif, decide_invite_notif_at,
    decide_message_notif, decide_message_notif_at, decide_reaction_notif, decide_reaction_notif_at,
    dispatch_action, settle_at, CallNotif, InviteNotif, MessageNotif, NotifAction, ReactionNotif,
    TrackedEvent,
};
use psst::filters::EventKind;
use psst::ids::UserId;
use psst::notification::{Notification, Notifier, NotifyError};
use psst::state::{DaemonState, NANOS_PER_SEC};

const ROOM1: &str = "!room1:example.com";

fn evt(n: u32) -> String {
    format!("$evt{n}:example.com")
}

fn state() -> DaemonState {
    let mut s = DaemonState::new(UserId::new("@me:example.com".into()).unwrap());
    s.set_initial_sync_done();
    s
}

fn paused<F: Future<Output = ()>>(f: F) {
    tokio::runtime::Builder::new_current_thread()
        .enable_time()
        .start_paused(true)
        .build()
        .unwrap()
        .block_on(f)
}

/// Records what it is asked to show, and fails where it is told to.
struct MockNotifier {
    sent: Vec<Notification>,
    dismissed: Vec<String>,
    broken: bool,
}

impl MockNotifier {
    fn new() -> Self {
        MockNotifier { sent: Vec::new(), dismissed: Vec::new(), broken: false }
    }

    fn sent_tags(&self) -> Vec<String> {
        self.sent.iter().map(|n| n.tag.clone()).collect()
    }
}

impl Notifier for MockNotifier {
    fn send(&mut self, notification: &Notification) -> Result<(), NotifyError> {
        if self.broken {
            return Err(NotifyError { message: "broken".into() });
        }
        self.sent.push(Notification {
            tag: notification.tag.clone(),
            title: notification.title.clone(),
            subtitle: notification.subtitle.clone(),
            body: notification.body.clone(),
            sound: notification.sound.clone(),
            thread_id: notification.thread_id.clone(),
            replace: notification.replace,
        });
        Ok(())
    }

    fn dismiss(&mut self, tag: &str) -> Result<(), NotifyError> {
        self.dismissed.push(tag.to_string());
        Ok(())
    }
}

fn dms_default_config() -> Config {
    Config::default()
}

fn msg(event_id: String) -> MessageNotif {
    MessageNotif {
        kind: EventKind::Message,
        sender: "@alice:x".into(),
        sender_name: "alice".into(),
        room_id: ROOM1.into(),
        room_name: "alice".into(),
        is_direct: true,
        is_encrypted: false,
        mentions_you: false,
        mentions_room: false,
        matched_keyword: false,
        event_ts_secs: chrono::Utc::now().timestamp(),
        event_id,
        edited_event_id: None,
        body: "hi".into(),
    }
}

#[test]
fn decide_message_dm_default_sends_with_msg_tag() {
    let mut s = state();
    let c = dms_default_config();
    match decide_message_notif(msg(evt(1)), &mut s, &c) {
        NotifAction::Send { tag, sound, replace, .. } => {
            assert_eq!(tag, format!("msg:{}", evt(1)));
            assert!(sound.is_some());
            assert!(!replace);
        }
        other => panic!("expected Send, got {other:?}"),
    }
}

#[test]
fn decide_message_room_silent_default() {
    let mut s = state();
    let c = dms_default_config();
    let action = decide_message_notif(
        MessageNotif { is_direct: false, room_name: "the room".into(), ..msg(evt(1)) },
        &mut s,
        &c,
    );
    match action {
        NotifAction::Send { sound, .. } => assert!(sound.is_none()),
        other => panic!("expected Send, got {other:?}"),
    }
}

#[test]
fn decide_message_with_mention_upgrades_to_noisy() {
    let mut s = state();
    let c = dms_default_config();
    let action = decide_message_notif(
        MessageNotif {
            is_direct: false,
            mentions_you: true,
            room_name: "the room".into(),
            ..msg(evt(1))
        },
        &mut s,
        &c,
    );
    match action {
        NotifAction::Send { sound, .. } => assert!(sound.is_some()),
        other => panic!("expected Send, got {other:?}"),
    }
}

#[test]
fn decide_edit_replace_when_original_tracked() {
    let mut s = state();
    let c = dms_default_config();
    s.record_notif(ROOM1, "msg:original".into(), evt(1), 0);

    let action = decide_message_notif(
        MessageNotif {
            kind: EventKind::Edit,
            edited_event_id: Some(evt(1)),
            body: "edited body".into(),
            ..msg(evt(2))
        },
        &mut s,
        &c,
    );
    match action {
        NotifAction::Send { tag, sound, replace, .. } => {
            assert_eq!(tag, "msg:original");
            assert!(sound.is_none());
            assert!(replace);
        }
        other => panic!("expected Send, got {other:?}"),
    }
}

#[test]
fn decide_edit_replace_when_original_not_tracked_suppresses() {
    let mut s = state();
    let c = dms_default_config();
    let action = decide_message_notif(
        MessageNotif { kind: EventKind::Edit, edited_event_id: Some(evt(1)), ..msg(evt(2)) },
        &mut s,
        &c,
    );
    assert_eq!(action, NotifAction::Suppress);
}

#[test]
fn decide_edit_silent_when_original_not_tracked_suppresses() {
    let mut s = state();
    let mut c = dms_default_config();
    c.notifications.dms.edits = EditMode::Silent;
    let action = decide_message_notif(
        MessageNotif { kind: EventKind::Edit, edited_event_id: Some(evt(1)), ..msg(evt(2)) },
        &mut s,
        &c,
    );
    assert_eq!(action, NotifAction::Suppress);
}

#[test]
fn decide_edit_noisy_when_original_tracked_with_edit_title() {
    let mut s = state();
    let mut c = dms_default_config();
    c.notifications.dms.edits = EditMode::Noisy;
    s.record_notif(ROOM1, "msg:original".into(), evt(1), 0);

    let action = decide_message_notif(
        MessageNotif {
            kind: EventKind::Edit,
            edited_event_id: Some(evt(1)),
            body: "edited body".into(),
            ..msg(evt(2))
        },
        &mut s,
        &c,
    );
    match action {
        NotifAction::Send { tag, title, sound, replace, .. } => {
            assert_eq!(tag, "msg:original");
            assert_eq!(title, "alice edited their message");
            assert!(sound.is_some());
            assert!(!replace);
        }
        other => panic!("expected Send, got {other:?}"),
    }
}

#[test]
fn decide_edit_noisy_does_not_duplicate_tracking_entry() {
    let mut s = state();
    let mut c = dms_default_config();
    c.notifications.dms.edits = EditMode::Noisy;
    let mut notifier = MockNotifier::new();
    s.record_notif(ROOM1, "msg:original".into(), evt(1), 0);

    for i in 2..=4 {
        let action = decide_message_notif(
            MessageNotif {
                kind: EventKind::Edit,
                edited_event_id: Some(evt(1)),
                body: format!("edit {i}"),
                ..msg(evt(i))
            },
            &mut s,
            &c,
        );
        dispatch_action(action, &mut notifier, &mut s, ROOM1);
    }

    let remaining = s.drain_room_tags(ROOM1);
    assert_eq!(
        remaining.len(),
        1,
        "expected exactly one entry after 3 edits, got {}",
        remaining.len()
    );
    assert_eq!(remaining[0], "msg:original");
}

#[test]
fn decide_message_debounced_within_window_silent() {
    paused(async {
        let mut s = state();
        let mut c = dms_default_config();
        c.notifications.dms.noisy_debounce_seconds = 5;

        let _ = decide_message_notif(msg(evt(1)), &mut s, &c);
        tokio::time::advance(Duration::from_secs(2)).await;
        match decide_message_notif(msg(evt(2)), &mut s, &c) {
            NotifAction::Send { sound, .. } => {
                assert!(sound.is_none(), "expected debounced silent")
            }
            other => panic!("expected Send, got {other:?}"),
        }
    });
}

#[test]
fn decide_message_debounce_bypassed_for_explicit_sender() {
    paused(async {
        let mut s = state();
        let mut c = dms_default_config();
        c.notifications.dms.noisy_debounce_seconds = 5;
        c.notifications.senders.noisy.push("@alice:x".into());

        let _ = decide_message_notif(msg(evt(1)), &mut s, &c);
        tokio::time::advance(Duration::from_secs(2)).await;
        match decide_message_notif(msg(evt(2)), &mut s, &c) {
            NotifAction::Send { sound, .. } => {
                assert!(sound.is_some(), "explicit sender bypasses debounce")
            }
            other => panic!("expected Send, got {other:?}"),
        }
    });
}

fn invite() -> InviteNotif {
    InviteNotif {
        sender: "@alice:x".into(),
        sender_localpart: "alice".into(),
        room_id: ROOM1.into(),
        room_name: "test room".into(),
        event_ts_secs: chrono::Utc::now().timestamp(),
    }
}

#[test]
fn decide_invite_uses_invite_tag() {
    let c = dms_default_config();
    match decide_invite_notif(invite(), &c) {
        NotifAction::Send { tag, sound, .. } => {
            assert_eq!(tag, format!("invite:{}", ROOM1));
            assert!(sound.is_some());
        }
        other => panic!("expected Send, got {other:?}"),
    }
}

fn reaction() -> ReactionNotif {
    ReactionNotif {
        reactor_user_id: "@bob:x".into(),
        reactor_name: "bob".into(),
        target_event_id: evt(1),
        reaction_event_id: evt(2),
        reaction_key: "👍".into(),
        original_body: "great message".into(),
        is_direct: true,
        is_encrypted: false,
        event_ts_secs: chrono::Utc::now().timestamp(),
        room_id: ROOM1.into(),
    }
}

#[test]
fn decide_reaction_uses_react_tag() {
    let mut s = state();
    let c = dms_default_config();
    match decide_reaction_notif(reaction(), &mut s, &c) {
        NotifAction::Send { tag, title, body, .. } => {
            assert_eq!(tag, format!("react:{}", evt(1)));
            assert!(title.contains("bob"));
            assert!(title.contains("👍"));
            assert!(body.contains("great message"));
        }
        other => panic!("expected Send, got {other:?}"),
    }
}

fn call() -> CallNotif {
    CallNotif {
        caller_user_id: "@bob:x".into(),
        caller_name: "bob".into(),
        call_id: "callid123".into(),
        call_event_id: evt(1),
        is_direct: true,
        is_encrypted: false,
        event_ts_secs: chrono::Utc::now().timestamp(),
        room_id: ROOM1.into(),
    }
}

#[test]
fn decide_call_uses_call_tag() {
    let c = dms_default_config();
    match decide_call_notif(call(), &c) {
        NotifAction::Send { tag, title, .. } => {
            assert_eq!(tag, "call:callid123");
            assert!(title.contains("bob"));
        }
        other => panic!("expected Send, got {other:?}"),
    }
}

fn send(tag: &str, replace: bool, track: Option<TrackedEvent>) -> NotifAction {
    NotifAction::Send {
        tag: tag.into(),
        title: "t".into(),
        subtitle: None,
        body: "b".into(),
        sound: None,
        replace,
        track,
    }
}

#[test]
fn dispatch_action_records_in_history_and_skips_for_replace() {
    let mut s = state();
    let mut notifier = MockNotifier::new();

    let track = TrackedEvent { event_id: evt(1), event_ts: 100 };
    dispatch_action(send("msg:abc", false, Some(track)), &mut notifier, &mut s, ROOM1);
    assert_eq!(s.lookup_tag(ROOM1, &evt(1)), Some("msg:abc".into()));

    let replace_action = NotifAction::Send {
        tag: "msg:abc".into(),
        title: "t".into(),
        subtitle: None,
        body: "edited".into(),
        sound: None,
        replace: true,
        track: None,
    };
    dispatch_action(replace_action, &mut notifier, &mut s, ROOM1);
    assert_eq!(s.lookup_tag(ROOM1, &evt(99)), None);

    assert_eq!(notifier.sent_tags(), vec!["msg:abc".to_string(), "msg:abc".to_string()]);
}

#[test]
fn decide_message_respects_room_override() {
    let mut s = state();
    let mut c = dms_default_config();
    let ov = RoomOverride { unencrypted: Some(NotifyLevel::Noisy), ..Default::default() };
    c.notifications.rooms.overrides.insert(ROOM1.to_string(), ov);

    let action = decide_message_notif(
        MessageNotif { is_direct: false, room_name: "the room".into(), ..msg(evt(1)) },
        &mut s,
        &c,
    );
    match action {
        NotifAction::Send { sound, .. } => assert!(sound.is_some()),
        other => panic!("expected Send, got {other:?}"),
    }
}

const NOW: LocalTime = LocalTime { timestamp: 1_000_000, second_of_day: 43_200 };

#[test]
fn message_action_in_full() {
    let mut s = state();
    let c = dms_default_config();
    let direct = MessageNotif { event_ts_secs: 1_000_000, ..msg(evt(1)) };
    assert_eq!(
        decide_message_notif_at(direct, &mut s, &c, NOW, 7),
        NotifAction::Send {
            tag: "msg:$evt1:example.com".into(),
            title: "alice".into(),
            subtitle: None,
            body: "hi".into(),
            sound: Some("message-new-instant".into()),
            replace: false,
            track: Some(TrackedEvent { event_id: evt(1), event_ts: 1_000_000 }),
        }
    );
    assert!(s.is_within_debounce_at(ROOM1, 1, 8));
    let room = MessageNotif {
        is_direct: false,
        room_name: "the room".into(),
        event_ts_secs: 1_000_000,
        ..msg(evt(2))
    };
    assert_eq!(
        decide_message_notif_at(room, &mut s, &c, NOW, 9),
        NotifAction::Send {
            tag: "msg:$evt2:example.com".into(),
            title: "the room".into(),
            subtitle: Some("alice".into()),
            body: "hi".into(),
            sound: None,
            replace: false,
            track: Some(TrackedEvent { event_id: evt(2), event_ts: 1_000_000 }),
        }
    );
    let old = MessageNotif { event_ts_secs: 1, ..msg(evt(3)) };
    assert_eq!(decide_message_notif_at(old, &mut s, &c, NOW, 9), NotifAction::Suppress);
}

#[test]
fn other_actions_in_full() {
    let mut s = state();
    let mut c = dms_default_config();
    c.behavior.max_body_length = 5;
    let invited = InviteNotif { event_ts_secs: 1_000_000, ..invite() };
    assert_eq!(
        decide_invite_notif_at(invited, &c, NOW),
        NotifAction::Send {
            tag: "invite:!room1:example.com".into(),
            title: "invite to test room".into(),
            subtitle: Some("from alice".into()),
            body: "".into(),
            sound: Some("message-new-instant".into()),
            replace: false,
            track: None,
        }
    );
    let reacted = ReactionNotif { event_ts_secs: 1_000_000, ..reaction() };
    assert_eq!(
        decide_reaction_notif_at(reacted, &mut s, &c, NOW, 3),
        NotifAction::Send {
            tag: "react:$evt1:example.com".into(),
            title: "bob reacted 👍".into(),
            subtitle: None,
            body: "great...".into(),
            sound: Some("message-new-instant".into()),
            replace: false,
            track: Some(TrackedEvent { event_id: evt(2), event_ts: 1_000_000 }),
        }
    );
    let called = CallNotif { event_ts_secs: 1_000_000, ..call() };
    assert_eq!(
        decide_call_notif_at(called, &c, NOW),
        NotifAction::Send {
            tag: "call:callid123".into(),
            title: "incoming call from bob".into(),
            subtitle: None,
            body: "".into(),
            sound: Some("message-new-instant".into()),
            replace: false,
            track: Some(TrackedEvent { event_id: evt(1), event_ts: 1_000_000 }),
        }
    );
    c.notifications.enabled = false;
    let invited = InviteNotif { event_ts_secs: 1_000_000, ..invite() };
    assert_eq!(decide_invite_notif_at(invited, &c, NOW), NotifAction::Suppress);
    let reacted = ReactionNotif { event_ts_secs: 1_000_000, ..reaction() };
    assert_eq!(
        decide_reaction_notif_at(reacted, &mut s, &c, NOW, 3),
        NotifAction::Suppress
    );
    let called = CallNotif { event_ts_secs: 1_000_000, ..call() };
    assert_eq!(decide_call_notif_at(called, &c, NOW), NotifAction::Suppress);
}

#[test]
fn decisions_leave_the_history_alone() {
    let mut s = state();
    let c = dms_default_config();
    s.record_notif(ROOM1, "msg:one".into(), evt(1), 10);
    s.record_notif(ROOM1, "msg:two".into(), evt(2), 20);
    let message = MessageNotif { event_ts_secs: 1_000_000, ..msg(evt(3)) };
    let action = decide_message_notif_at(message, &mut s, &c, NOW, 7);
    assert!(matches!(action, NotifAction::Send { .. }));
    let reacted = ReactionNotif {
        event_ts_secs: 1_000_000,
        reaction_event_id: evt(4),
        ..reaction()
    };
    let action = decide_reaction_notif_at(reacted, &mut s, &c, NOW, 8);
    assert!(matches!(action, NotifAction::Send { .. }));
    assert_eq!(s.lookup_tag(ROOM1, &evt(1)), Some("msg:one".to_string()));
    assert_eq!(s.lookup_tag(ROOM1, &evt(3)), None);
    assert_eq!(s.lookup_tag(ROOM1, &evt(4)), None);
    assert_eq!(s.drain_room_tags(ROOM1), vec!["msg:one".to_string(), "msg:two".to_string()]);
}

#[test]
fn invitations_ignore_room_settings() {
    let plain = dms_default_config();
    let mut c = dms_default_config();
    let ov = RoomOverride { mute: true, ..Default::default() };
    c.notifications.rooms.overrides.insert(ROOM1.to_string(), ov);
    c.notifications.dms.unencrypted = NotifyLevel::Off;
    c.notifications.dms.encrypted = NotifyLevel::Off;
    c.notifications.rooms.defaults.unencrypted = NotifyLevel::Off;
    let invited = || InviteNotif { event_ts_secs: 1_000_000, ..invite() };
    let action = decide_invite_notif_at(invited(), &c, NOW);
    assert_eq!(action, decide_invite_notif_at(invited(), &plain, NOW));
    assert_eq!(
        action,
        NotifAction::Send {
            tag: "invite:!room1:example.com".into(),
            title: "invite to test room".into(),
            subtitle: Some("from alice".into()),
            body: "".into(),
            sound: Some("message-new-instant".into()),
            replace: false,
            track: None,
        }
    );
    c.notifications.invites = NotifyLevel::Off;
    assert_eq!(decide_invite_notif_at(invited(), &c, NOW), NotifAction::Suppress);
}

#[test]
fn earlier_notification_of_an_event_is_found_first() {
    let mut s = state();
    let c = dms_default_config();
    s.record_notif(ROOM1, "msg:earlier".into(), evt(1), 10);
    s.record_notif(ROOM1, "msg:later".into(), evt(1), 20);
    assert_eq!(s.lookup_tag(ROOM1, &evt(1)), Some("msg:earlier".to_string()));
    let edit = MessageNotif {
        kind: EventKind::Edit,
        edited_event_id: Some(evt(1)),
        event_ts_secs: 1_000_000,
        ..msg(evt(2))
    };
    match decide_message_notif_at(edit, &mut s, &c, NOW, 7) {
        NotifAction::Send { tag, replace, .. } => {
            assert_eq!(tag, "msg:earlier");
            assert!(replace);
        }
        other => panic!("expected Send, got {other:?}"),
    }
    assert_eq!(
        s.drain_room_tags(ROOM1),
        vec!["msg:earlier".to_string(), "msg:later".to_string()]
    );
}

#[test]
fn reactions_are_debounced_calls_are_not() {
    let mut s = state();
    let mut c = dms_default_config();
    c.notifications.dms.noisy_debounce_seconds = 5;
    s.mark_notification_at(ROOM1, 0);
    let reacted = ReactionNotif { event_ts_secs: 1_000_000, ..reaction() };
    match decide_reaction_notif_at(reacted, &mut s, &c, NOW, 2 * NANOS_PER_SEC) {
        NotifAction::Send { sound, .. } => assert!(sound.is_none()),
        other => panic!("expected Send, got {other:?}"),
    }
    let called = CallNotif { event_ts_secs: 1_000_000, ..call() };
    match decide_call_notif_at(called, &c, NOW) {
        NotifAction::Send { sound, .. } => assert!(sound.is_some()),
        other => panic!("expected Send, got {other:?}"),
    }
}

#[test]
fn notification_names_its_room() {
    let mut s = state();
    let mut notifier = MockNotifier::new();
    dispatch_action(send("x", true, None), &mut notifier, &mut s, ROOM1);
    let sent = &notifier.sent[0];
    assert_eq!(sent.tag, "x");
    assert_eq!(sent.title, "t");
    assert_eq!(sent.body, "b");
    assert_eq!(sent.thread_id, ROOM1);
    assert!(sent.replace);
    dispatch_action(NotifAction::Suppress, &mut notifier, &mut s, ROOM1);
    assert_eq!(notifier.sent.len(), 1);
    assert!(notifier.dismissed.is_empty());
}

#[test]
fn failed_delivery_is_not_remembered() {
    let mut s = state();
    let mut notifier = MockNotifier::new();
    notifier.broken = true;
    let track = TrackedEvent { event_id: evt(1), event_ts: 100 };
    dispatch_action(send("msg:abc", false, Some(track)), &mut notifier, &mut s, ROOM1);
    assert_eq!(s.lookup_tag(ROOM1, &evt(1)), None);
    let track = Some(TrackedEvent { event_id: evt(1), event_ts: 100 });
    settle_at("msg:abc".into(), track, false, &mut s, ROOM1, 5);
    assert_eq!(s.lookup_tag(ROOM1, &evt(1)), None);
    let track = Some(TrackedEvent { event_id: evt(1), event_ts: 100 });
    settle_at("msg:abc".into(), track, true, &mut s, ROOM1, 5);
    assert_eq!(s.lookup_tag(ROOM1, &evt(1)), Some("msg:abc".into()));
}
