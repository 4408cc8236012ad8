use psst::clock::LocalTime;
use psst::config::{Config, EditMode};
use psst::filters::{Mentions, MessageType};
use psst::handlers::{
    accept_call_invite, accept_invite, accept_message, accept_reaction, announce_call_invite,
    announce_call_invite_at, announce_invite, announce_invite_at, announce_message,
    announce_message_at, announce_reaction, announce_reaction_at, handle_call_hangup,
    handle_receipt, handle_redaction, is_own_message, CallInviteEvent, MemberEvent, Membership, MessageContent,
    MessageEvent, ReactionEvent, Receipt, Receipts, RedactionEvent, RoomFacts, TargetMessage,
};
use psst::ids::UserId;
use psst::notification::{Notification, Notifier, NotifyError};
use psst::state::{DaemonState, NANOS_PER_SEC};

const ROOM: &str = "!room:example.com";

#[derive(Default)]
struct Desk {
    sent: Vec<(String, String, Option<String>, String, bool)>,
    dismissed: Vec<String>,
}

impl Notifier for Desk {
    fn send(&mut self, n: &Notification) -> Result<(), NotifyError> {
        assert_eq!(n.thread_id, ROOM);
        self.sent.push((
            n.tag.clone(),
            n.title.clone(),
            n.subtitle.clone(),
            n.body.clone(),
            n.sound.is_some(),
        ));
        Ok(())
    }

    fn dismiss(&mut self, tag: &str) -> Result<(), NotifyError> {
        self.dismissed.push(tag.to_string());
        Err(NotifyError { message: "gone already".into() })
    }
}

fn user(id: &str) -> UserId {
    UserId::new(id.into()).unwrap()
}

fn fresh() -> DaemonState {
    DaemonState::new(user("@me:example.com"))
}

fn synced() -> DaemonState {
    let mut s = fresh();
    s.set_initial_sync_done();
    s
}

fn millis() -> u64 {
    chrono::Utc::now().timestamp_millis() as u64
}

fn message(event_id: &str, sender: &str, text: &str) -> MessageEvent {
    MessageEvent {
        event_id: event_id.into(),
        sender: user(sender),
        content: Some(MessageContent {
            msgtype: MessageType::Text(text.into()),
            body: text.into(),
            replaces: None,
            mentions: None,
            origin_server_ts: millis(),
        }),
    }
}

fn edit(event_id: &str, of: &str, text: &str) -> MessageEvent {
    let mut ev = message(event_id, "@alice:example.com", text);
    ev.content.as_mut().unwrap().replaces = Some(of.into());
    ev
}

fn direct() -> RoomFacts {
    RoomFacts {
        room_id: ROOM.into(),
        is_direct: Some(true),
        is_encrypted: false,
        display_name: None,
        sender_display_name: None,
    }
}

fn group() -> RoomFacts {
    RoomFacts {
        room_id: ROOM.into(),
        is_direct: None,
        is_encrypted: true,
        display_name: Some("the room".into()),
        sender_display_name: Some("Alice".into()),
    }
}

#[test]
fn nothing_is_accepted_before_the_first_sync() {
    let mut s = fresh();
    let ev = message("$1", "@alice:example.com", "hi");
    assert!(!accept_message(&ev, &mut s));
    s.set_initial_sync_done();
    assert!(accept_message(&ev, &mut s));
}

#[test]
fn own_messages_are_ignored() {
    let mut s = synced();
    assert!(!accept_message(&message("$1", "@me:example.com", "hi"), &mut s));
    assert!(accept_message(&message("$1", "@alice:example.com", "hi"), &mut s));
}

#[test]
fn messages_are_accepted_once() {
    let mut s = synced();
    let ev = message("$1", "@alice:example.com", "hi");
    assert!(accept_message(&ev, &mut s));
    assert!(!accept_message(&ev, &mut s));
}

#[test]
fn redacted_messages_are_seen_and_not_accepted() {
    let mut s = synced();
    let mut ev = message("$1", "@alice:example.com", "hi");
    ev.content = None;
    assert!(!accept_message(&ev, &mut s));
    assert!(!s.dedup("$1"));
    let mut desk = Desk::default();
    announce_message(&ev, &direct(), &mut s, &mut desk, &Config::default());
    assert!(desk.sent.is_empty());
}

#[test]
fn direct_message_is_announced() {
    let mut s = synced();
    let mut desk = Desk::default();
    let ev = message("$1", "@alice:example.com", "hi");
    announce_message(&ev, &direct(), &mut s, &mut desk, &Config::default());
    assert_eq!(
        desk.sent,
        vec![("msg:$1".into(), "alice".into(), None, "hi".into(), true)]
    );
    assert_eq!(s.lookup_tag(ROOM, "$1"), Some("msg:$1".into()));
}

#[test]
fn group_message_is_announced() {
    let mut s = synced();
    let mut desk = Desk::default();
    let mut ev = message("$1", "@alice:example.com", "waves");
    ev.content.as_mut().unwrap().msgtype = MessageType::Emote("waves".into());
    announce_message(&ev, &group(), &mut s, &mut desk, &Config::default());
    assert_eq!(
        desk.sent,
        vec![(
            "msg:$1".into(),
            "the room".into(),
            Some("Alice".into()),
            "* Alice waves".into(),
            false
        )]
    );
}

#[test]
fn mentions_and_keywords_make_noise() {
    let mut config = Config::default();
    config.notifications.rooms.defaults.keywords = vec!["Deploy".into()];
    let noisy = |ev: &MessageEvent, s: &mut DaemonState, config: &Config| {
        let mut desk = Desk::default();
        announce_message(ev, &group(), s, &mut desk, config);
        desk.sent[0].4
    };
    let mut s = synced();
    assert!(noisy(&message("$1", "@a:x", "hey @me"), &mut s, &config));
    assert!(noisy(&message("$2", "@a:x", "deploy now"), &mut s, &config));
    assert!(!noisy(&message("$3", "@a:x", "hey myself"), &mut s, &config));
    s.set_display_name("Myself".into());
    assert!(noisy(&message("$4", "@a:x", "hey myself"), &mut s, &config));
    let mut ev = message("$5", "@a:x", "hey @me");
    ev.content.as_mut().unwrap().mentions = Some(Mentions { user_ids: vec![], room: false });
    assert!(!noisy(&ev, &mut s, &config));
}

#[test]
fn edit_updates_its_message() {
    let mut s = synced();
    let mut desk = Desk::default();
    let config = Config::default();
    let ev = message("$1", "@alice:example.com", "helo");
    announce_message(&ev, &direct(), &mut s, &mut desk, &config);
    announce_message(&edit("$2", "$1", "hello"), &direct(), &mut s, &mut desk, &config);
    announce_message(&edit("$3", "$9", "other"), &direct(), &mut s, &mut desk, &config);
    assert_eq!(desk.sent.len(), 2);
    assert_eq!(desk.sent[1].0, "msg:$1");
    assert_eq!(desk.sent[1].3, "hello");
    assert!(!desk.sent[1].4);
    let mut noisy = Config::default();
    noisy.notifications.dms.edits = EditMode::Noisy;
    announce_message(&edit("$4", "$1", "hello!"), &direct(), &mut s, &mut desk, &noisy);
    assert_eq!(desk.sent[2].0, "msg:$1");
    assert_eq!(desk.sent[2].1, "alice edited their message");
    assert_eq!(s.drain_room_tags(ROOM), vec!["msg:$1".to_string()]);
}

#[test]
fn only_invitations_of_the_user_are_accepted() {
    let invited = |state_key: &str, membership: Membership| MemberEvent {
        state_key: state_key.into(),
        sender: user("@alice:example.com"),
        membership,
    };
    assert!(!accept_invite(&invited("@me:example.com", Membership::Invite), &fresh()));
    let mut s = synced();
    assert!(!accept_invite(&invited("@bob:example.com", Membership::Invite), &s));
    assert!(!accept_invite(&invited("@me:example.com", Membership::Other), &s));
    let ev = invited("@me:example.com", Membership::Invite);
    assert!(accept_invite(&ev, &s));
    let mut desk = Desk::default();
    announce_invite(&ev, ROOM, &None, &mut s, &mut desk, &Config::default());
    assert_eq!(
        desk.sent,
        vec![(
            "invite:!room:example.com".into(),
            "invite to !room:example.com".into(),
            Some("from alice".into()),
            "".into(),
            true
        )]
    );
    assert!(!s.remembers_room(ROOM));
}

fn reaction() -> ReactionEvent {
    ReactionEvent {
        event_id: "$r".into(),
        sender: user("@bob:example.com"),
        target_event_id: "$1".into(),
        key: "👍".into(),
        origin_server_ts: millis(),
    }
}

#[test]
fn reactions_to_own_messages_are_announced() {
    let mut s = synced();
    let mut desk = Desk::default();
    let config = Config::default();
    assert!(!accept_reaction(&None, &mut s));
    assert!(accept_reaction(&Some(reaction()), &mut s));
    assert!(!accept_reaction(&Some(reaction()), &mut s));
    let mine = Some(TargetMessage {
        sender: user("@me:example.com"),
        msgtype: MessageType::Emote("dances".into()),
    });
    let theirs = Some(TargetMessage {
        sender: user("@bob:example.com"),
        msgtype: MessageType::Text("hi".into()),
    });
    assert!(is_own_message(&mine, &s));
    assert!(!is_own_message(&theirs, &s));
    assert!(!is_own_message(&None, &s));
    announce_reaction(&reaction(), &theirs, &direct(), &mut s, &mut desk, &config);
    announce_reaction(&reaction(), &None, &direct(), &mut s, &mut desk, &config);
    assert!(desk.sent.is_empty());
    announce_reaction(&reaction(), &mine, &direct(), &mut s, &mut desk, &config);
    assert_eq!(
        desk.sent,
        vec![("react:$1".into(), "bob reacted 👍".into(), None, "* me dances".into(), true)]
    );
    assert_eq!(s.lookup_tag(ROOM, "$r"), Some("react:$1".into()));
}

fn call(invitee: Option<&str>) -> CallInviteEvent {
    CallInviteEvent {
        event_id: "$c".into(),
        sender: user("@bob:example.com"),
        invitee: invitee.map(|s| s.to_string()),
        call_id: "abc".into(),
        origin_server_ts: millis(),
    }
}

#[test]
fn calls_for_others_are_seen_and_not_accepted() {
    let mut s = synced();
    assert!(!accept_call_invite(&None, &mut s));
    assert!(!accept_call_invite(&Some(call(Some("@bob:example.com"))), &mut s));
    assert!(!s.dedup("$c"));
    let mut s = synced();
    assert!(accept_call_invite(&Some(call(Some("@me:example.com"))), &mut s));
    let mut s = synced();
    assert!(accept_call_invite(&Some(call(None)), &mut s));
}

#[test]
fn hangup_dismisses_the_call() {
    let mut s = synced();
    let mut desk = Desk::default();
    announce_call_invite(&call(None), &group(), &mut s, &mut desk, &Config::default());
    assert_eq!(
        desk.sent,
        vec![("call:abc".into(), "incoming call from Alice".into(), None, "".into(), true)]
    );
    handle_call_hangup(None, ROOM, &mut s, &mut desk);
    handle_call_hangup(Some("xyz"), ROOM, &mut s, &mut desk);
    assert!(desk.dismissed.is_empty());
    handle_call_hangup(Some("abc"), ROOM, &mut s, &mut desk);
    handle_call_hangup(Some("abc"), ROOM, &mut s, &mut desk);
    assert_eq!(desk.dismissed, vec!["call:abc".to_string()]);
    assert!(!s.remembers_room(ROOM));
}

fn history() -> DaemonState {
    let mut s = synced();
    s.record_notif(ROOM, "a".into(), "$a".into(), 100);
    s.record_notif(ROOM, "b".into(), "$b".into(), 200);
    s.record_notif(ROOM, "c".into(), "$c".into(), 300);
    s
}

#[test]
fn receipt_dismisses_what_it_covers() {
    let mut s = history();
    let mut desk = Desk::default();
    let ev = Receipts { read: Some(Receipt { ts: Some(200_999) }), read_private: None };
    handle_receipt(&ev, ROOM, &mut s, &mut desk);
    assert_eq!(desk.dismissed, vec!["a".to_string(), "b".to_string()]);
    handle_receipt(&ev, ROOM, &mut s, &mut desk);
    assert_eq!(desk.dismissed.len(), 2);
    assert_eq!(s.lookup_tag(ROOM, "$c"), Some("c".into()));
}

#[test]
fn receipt_without_a_time_dismisses_the_room() {
    let mut s = history();
    let mut desk = Desk::default();
    let ev = Receipts { read: None, read_private: Some(Receipt { ts: None }) };
    handle_receipt(&ev, ROOM, &mut s, &mut desk);
    assert_eq!(desk.dismissed.len(), 3);
    assert!(!s.remembers_room(ROOM));
}

#[test]
fn public_receipt_comes_first() {
    let mut s = history();
    let mut desk = Desk::default();
    let ev = Receipts {
        read: Some(Receipt { ts: Some(100_000) }),
        read_private: Some(Receipt { ts: None }),
    };
    handle_receipt(&ev, ROOM, &mut s, &mut desk);
    assert_eq!(desk.dismissed, vec!["a".to_string()]);
    let nobody = Receipts { read: None, read_private: None };
    handle_receipt(&nobody, ROOM, &mut s, &mut desk);
    assert_eq!(desk.dismissed.len(), 1);
}

#[test]
fn nothing_is_dismissed_before_the_first_sync() {
    let mut s = fresh();
    s.record_notif(ROOM, "call:abc".into(), "$a".into(), 100);
    let mut desk = Desk::default();
    let ev = Receipts { read: Some(Receipt { ts: None }), read_private: None };
    handle_receipt(&ev, ROOM, &mut s, &mut desk);
    handle_call_hangup(Some("abc"), ROOM, &mut s, &mut desk);
    let redaction = RedactionEvent { content_redacts: Some("$a".into()), redacts: None };
    handle_redaction(&Some(redaction), ROOM, &mut s, &mut desk);
    assert!(desk.dismissed.is_empty());
    assert!(s.remembers_room(ROOM));
}

#[test]
fn redaction_dismisses_its_event() {
    let mut s = history();
    let mut desk = Desk::default();
    let redact = |content: Option<&str>, event: Option<&str>| {
        Some(RedactionEvent {
            content_redacts: content.map(|s| s.to_string()),
            redacts: event.map(|s| s.to_string()),
        })
    };
    handle_redaction(&None, ROOM, &mut s, &mut desk);
    handle_redaction(&redact(None, None), ROOM, &mut s, &mut desk);
    handle_redaction(&redact(Some("$x"), Some("$a")), ROOM, &mut s, &mut desk);
    assert!(desk.dismissed.is_empty());
    handle_redaction(&redact(Some("$b"), Some("$a")), ROOM, &mut s, &mut desk);
    handle_redaction(&redact(None, Some("$c")), ROOM, &mut s, &mut desk);
    assert_eq!(desk.dismissed, vec!["b".to_string(), "c".to_string()]);
    assert_eq!(s.drain_room_tags(ROOM), vec!["a".to_string()]);
}

#[test]
fn announced_reaction_is_dismissed_with_its_event() {
    let mut s = synced();
    let mut desk = Desk::default();
    let mine = Some(TargetMessage {
        sender: user("@me:example.com"),
        msgtype: MessageType::Text("hi".into()),
    });
    let config = Config::default();
    announce_reaction(&reaction(), &mine, &direct(), &mut s, &mut desk, &config);
    let redaction = RedactionEvent { content_redacts: Some("$r".into()), redacts: None };
    handle_redaction(&Some(redaction), ROOM, &mut s, &mut desk);
    assert_eq!(desk.dismissed, vec!["react:$1".to_string()]);
    announce_reaction(&reaction(), &mine, &direct(), &mut s, &mut desk, &config);
    let ev = Receipts { read: Some(Receipt { ts: Some(millis() + 1000) }), read_private: None };
    handle_receipt(&ev, ROOM, &mut s, &mut desk);
    assert_eq!(desk.dismissed.len(), 2);
    assert!(!s.remembers_room(ROOM));
}

#[test]
fn keywords_are_matched_on_the_message_not_on_what_shows() {
    let mut config = Config::default();
    config.notifications.rooms.defaults.keywords = vec!["urgent".into()];
    config.behavior.show_message_body = false;
    let mut s = synced();
    let mut desk = Desk::default();
    let ev = message("$1", "@alice:example.com", "URGENT now");
    announce_message(&ev, &group(), &mut s, &mut desk, &config);
    assert_eq!(desk.sent[0].3, "new message");
    assert!(desk.sent[0].4);
    config.behavior.show_message_body = true;
    config.behavior.max_body_length = 3;
    let ev = message("$2", "@alice:example.com", "this is URGENT");
    announce_message(&ev, &group(), &mut s, &mut desk, &config);
    assert_eq!(desk.sent[1].3, "thi...");
    assert!(desk.sent[1].4);
    let mut ev = message("$3", "@alice:example.com", "urgent.png");
    ev.content.as_mut().unwrap().msgtype = MessageType::Image;
    config.behavior.max_body_length = 300;
    announce_message(&ev, &group(), &mut s, &mut desk, &config);
    assert_eq!(desk.sent[2].3, "[image]");
    assert!(desk.sent[2].4);
}

#[test]
fn mentions_are_found_where_bodies_are_hidden() {
    let mut config = Config::default();
    config.behavior.show_message_body = false;
    let mut s = synced();
    let mut desk = Desk::default();
    let ev = message("$1", "@alice:example.com", "hey @me");
    announce_message(&ev, &group(), &mut s, &mut desk, &config);
    let ev = message("$2", "@alice:example.com", "hey");
    announce_message(&ev, &group(), &mut s, &mut desk, &config);
    assert!(desk.sent[0].4);
    assert!(!desk.sent[1].4);
}

const NOON: LocalTime = LocalTime { timestamp: 1_000_000, second_of_day: 43_200 };

#[test]
fn messages_announced_at_a_given_time() {
    let mut config = Config::default();
    config.notifications.dms.noisy_debounce_seconds = 5;
    let at = |id: &str, ts: u64| {
        let mut ev = message(id, "@alice:example.com", "hi");
        ev.content.as_mut().unwrap().origin_server_ts = ts;
        ev
    };
    let mut s = synced();
    let mut desk = Desk::default();
    let room = direct();
    let start = NANOS_PER_SEC;
    let fresh = at("$1", 999_999_000);
    announce_message_at(&fresh, &room, &mut s, &mut desk, &config, NOON, start);
    assert_eq!(desk.sent.len(), 1);
    assert!(desk.sent[0].4);
    assert_eq!(s.lookup_tag(ROOM, "$1"), Some("msg:$1".into()));
    let soon = start + 4 * NANOS_PER_SEC;
    announce_message_at(&at("$2", 1_000_000_000), &room, &mut s, &mut desk, &config, NOON, soon);
    assert_eq!(desk.sent.len(), 2);
    assert!(!desk.sent[1].4);
    let old = at("$3", 999_000_000);
    announce_message_at(&old, &room, &mut s, &mut desk, &config, NOON, soon);
    let mut gone = at("$4", 1_000_000_000);
    gone.content = None;
    announce_message_at(&gone, &room, &mut s, &mut desk, &config, NOON, soon);
    assert_eq!(desk.sent.len(), 2);
    assert_eq!(s.lookup_tag(ROOM, "$3"), None);
}

#[test]
fn reactions_and_calls_announced_at_a_given_time() {
    let config = Config::default();
    let mut s = synced();
    let mut desk = Desk::default();
    let mine = Some(TargetMessage {
        sender: user("@me:example.com"),
        msgtype: MessageType::Text("hi".into()),
    });
    let mut fresh = reaction();
    fresh.origin_server_ts = 1_000_000_000;
    let mut old = reaction();
    old.origin_server_ts = 1_000;
    announce_reaction_at(&old, &mine, &direct(), &mut s, &mut desk, &config, NOON, 1);
    announce_reaction_at(&fresh, &None, &direct(), &mut s, &mut desk, &config, NOON, 1);
    assert!(desk.sent.is_empty());
    announce_reaction_at(&fresh, &mine, &direct(), &mut s, &mut desk, &config, NOON, 1);
    assert_eq!(desk.sent[0].0, "react:$1");
    let mut ringing = call(None);
    ringing.origin_server_ts = 1_000_000_000;
    let mut missed = call(None);
    missed.origin_server_ts = 1_000;
    announce_call_invite_at(&missed, &direct(), &mut s, &mut desk, &config, NOON);
    assert_eq!(desk.sent.len(), 1);
    announce_call_invite_at(&ringing, &direct(), &mut s, &mut desk, &config, NOON);
    assert_eq!(desk.sent[1].0, "call:abc");
}

#[test]
fn invitations_count_as_fresh() {
    let mut config = Config::default();
    config.behavior.max_event_age_secs = 0;
    let ev = MemberEvent {
        state_key: "@me:example.com".into(),
        sender: user("@alice:example.com"),
        membership: Membership::Invite,
    };
    let mut s = synced();
    let mut desk = Desk::default();
    announce_invite(&ev, ROOM, &None, &mut s, &mut desk, &config);
    assert_eq!(desk.sent.len(), 1);
    let then = NOON.timestamp;
    announce_invite_at(&ev, ROOM, &None, &mut s, &mut desk, &config, then, NOON);
    assert_eq!(desk.sent.len(), 2);
    announce_invite_at(&ev, ROOM, &None, &mut s, &mut desk, &config, then - 1, NOON);
    assert_eq!(desk.sent.len(), 2);
}
