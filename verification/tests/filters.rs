use chrono::{TimeZone, Timelike};
use psst::clock::LocalTime;
use psst::config::{Config, EditMode, NotifyLevel, RoomOverride};
use psst::filters::{
    detect_highlights, detect_mentions_from_body, evaluate, format_body, is_quiet_hours, keyword_in,
    mentions_in, truncate, EventContext, EventKind, FilterResult, Mentions, MessageType,
};
use psst::ids::UserId;

fn local(time: chrono::DateTime<chrono::Local>) -> LocalTime {
    LocalTime {
        timestamp: time.timestamp(),
        second_of_day: time.time().num_seconds_from_midnight(),
    }
}

fn right_now() -> LocalTime {
    local(chrono::Local::now())
}

fn now_ts() -> i64 {
    chrono::Utc::now().timestamp()
}

fn ctx() -> EventContext {
    EventContext {
        kind: EventKind::Message,
        sender: "@alice:example.com".into(),
        room_id: "!room:example.com".into(),
        is_direct: true,
        is_encrypted: false,
        mentions_you: false,
        mentions_room: false,
        matched_keyword: false,
        event_ts_secs: now_ts(),
    }
}

#[test]
fn dm_message_default_noisy() {
    assert_eq!(
        evaluate(&ctx(), &Config::default(), right_now()),
        FilterResult::Notify { sound: true }
    );
}

#[test]
fn group_message_default_silent() {
    let c = EventContext { is_direct: false, ..ctx() };
    assert_eq!(
        evaluate(&c, &Config::default(), right_now()),
        FilterResult::Notify { sound: false }
    );
}

#[test]
fn old_event_suppressed() {
    let c = EventContext { event_ts_secs: now_ts() - 3600, ..ctx() };
    assert_eq!(evaluate(&c, &Config::default(), right_now()), FilterResult::Suppress);
}

#[test]
fn disabled_globally() {
    let mut config = Config::default();
    config.notifications.enabled = false;
    assert_eq!(evaluate(&ctx(), &config, right_now()), FilterResult::Suppress);
}

#[test]
fn sender_off_suppresses() {
    let mut config = Config::default();
    config.notifications.senders.off.push("@alice:example.com".into());
    assert_eq!(evaluate(&ctx(), &config, right_now()), FilterResult::Suppress);
}

#[test]
fn sender_silent_overrides_dm_noisy() {
    let mut config = Config::default();
    config.notifications.senders.silent.push("@alice:example.com".into());
    assert_eq!(evaluate(&ctx(), &config, right_now()), FilterResult::Notify { sound: false });
}

#[test]
fn sender_noisy_overrides_room_silent() {
    let mut config = Config::default();
    config.notifications.senders.noisy.push("@alice:example.com".into());
    let c = EventContext { is_direct: false, ..ctx() };
    assert_eq!(evaluate(&c, &config, right_now()), FilterResult::Notify { sound: true });
}

#[test]
fn mention_you_upgrades_silent_room_to_noisy() {
    let c = EventContext { is_direct: false, mentions_you: true, ..ctx() };
    assert_eq!(
        evaluate(&c, &Config::default(), right_now()),
        FilterResult::Notify { sound: true }
    );
}

#[test]
fn keyword_match_upgrades_silent_room() {
    let c = EventContext { is_direct: false, matched_keyword: true, ..ctx() };
    assert_eq!(
        evaluate(&c, &Config::default(), right_now()),
        FilterResult::Notify { sound: true }
    );
}

#[test]
fn invite_uses_root_invites_level() {
    let c = EventContext { kind: EventKind::Invite, ..ctx() };
    assert_eq!(
        evaluate(&c, &Config::default(), right_now()),
        FilterResult::Notify { sound: true }
    );
}

#[test]
fn reaction_dm_default_noisy() {
    let c = EventContext { kind: EventKind::Reaction, ..ctx() };
    assert_eq!(
        evaluate(&c, &Config::default(), right_now()),
        FilterResult::Notify { sound: true }
    );
}

#[test]
fn reaction_room_default_silent() {
    let c = EventContext { kind: EventKind::Reaction, is_direct: false, ..ctx() };
    assert_eq!(
        evaluate(&c, &Config::default(), right_now()),
        FilterResult::Notify { sound: false }
    );
}

#[test]
fn edit_default_replace() {
    let c = EventContext { kind: EventKind::Edit, ..ctx() };
    assert_eq!(evaluate(&c, &Config::default(), right_now()), FilterResult::Replace);
}

#[test]
fn edit_off_suppresses() {
    let mut config = Config::default();
    config.notifications.dms.edits = EditMode::Off;
    let c = EventContext { kind: EventKind::Edit, ..ctx() };
    assert_eq!(evaluate(&c, &config, right_now()), FilterResult::Suppress);
}

#[test]
fn edit_silent() {
    let mut config = Config::default();
    config.notifications.dms.edits = EditMode::Silent;
    let c = EventContext { kind: EventKind::Edit, ..ctx() };
    assert_eq!(evaluate(&c, &config, right_now()), FilterResult::Notify { sound: false });
}

#[test]
fn edit_noisy() {
    let mut config = Config::default();
    config.notifications.dms.edits = EditMode::Noisy;
    let c = EventContext { kind: EventKind::Edit, ..ctx() };
    assert_eq!(evaluate(&c, &config, right_now()), FilterResult::Notify { sound: true });
}

#[test]
fn truncate_short_unchanged() {
    assert_eq!(truncate("hello", 10), "hello");
}

#[test]
fn truncate_long() {
    assert_eq!(truncate("hello world", 5), "hello...");
}

fn local_at(hour: u32, minute: u32) -> LocalTime {
    local(
        chrono::Local
            .with_ymd_and_hms(2026, 1, 1, hour, minute, 0)
            .single()
            .expect("constructed local time should be unambiguous"),
    )
}

fn ctx_at(now: LocalTime) -> EventContext {
    EventContext { event_ts_secs: now.timestamp, ..ctx() }
}

fn quiet(start: &str, end: &str) -> Config {
    let mut config = Config::default();
    config.behavior.quiet_hours.enabled = true;
    config.behavior.quiet_hours.start = start.into();
    config.behavior.quiet_hours.end = end.into();
    config
}

#[test]
fn quiet_hours_same_day_inside_window_suppresses() {
    let config = quiet("22:00", "23:00");
    let now = local_at(22, 30);
    assert_eq!(evaluate(&ctx_at(now), &config, now), FilterResult::Suppress);
}

#[test]
fn quiet_hours_same_day_outside_window_notifies() {
    let config = quiet("22:00", "23:00");
    let now = local_at(12, 0);
    assert_eq!(evaluate(&ctx_at(now), &config, now), FilterResult::Notify { sound: true });
}

#[test]
fn quiet_hours_overnight_inside_window_suppresses() {
    let config = quiet("22:00", "06:00");
    let late = local_at(23, 0);
    assert_eq!(evaluate(&ctx_at(late), &config, late), FilterResult::Suppress);
    let early = local_at(2, 0);
    assert_eq!(evaluate(&ctx_at(early), &config, early), FilterResult::Suppress);
}

#[test]
fn quiet_hours_overnight_outside_window_notifies() {
    let config = quiet("22:00", "06:00");
    let now = local_at(12, 0);
    assert_eq!(evaluate(&ctx_at(now), &config, now), FilterResult::Notify { sound: true });
}

#[test]
fn sender_noisy_bypasses_quiet_hours() {
    let mut config = quiet("00:00", "23:59");
    config.notifications.senders.noisy.push("@alice:example.com".into());
    assert_eq!(evaluate(&ctx(), &config, right_now()), FilterResult::Notify { sound: true });
}

fn muted() -> Config {
    let mut config = Config::default();
    let ov = RoomOverride { mute: true, ..Default::default() };
    config.notifications.rooms.overrides.insert("!room:example.com".into(), ov);
    config
}

#[test]
fn mute_suppresses_message_reaction_call_edit() {
    let config = muted();
    for kind in [EventKind::Message, EventKind::Reaction, EventKind::Call, EventKind::Edit] {
        let c = EventContext { kind, is_direct: false, ..ctx() };
        assert_eq!(
            evaluate(&c, &config, right_now()),
            FilterResult::Suppress,
            "kind {:?} should be muted",
            kind
        );
    }
}

#[test]
fn mute_does_not_suppress_invite() {
    let config = muted();
    let c = EventContext { kind: EventKind::Invite, is_direct: false, ..ctx() };
    assert_eq!(evaluate(&c, &config, right_now()), FilterResult::Notify { sound: true });
}

#[test]
fn call_default_levels() {
    let c = EventContext { kind: EventKind::Call, is_direct: true, ..ctx() };
    assert_eq!(
        evaluate(&c, &Config::default(), right_now()),
        FilterResult::Notify { sound: true }
    );
    let c = EventContext { kind: EventKind::Call, is_direct: false, ..ctx() };
    assert_eq!(
        evaluate(&c, &Config::default(), right_now()),
        FilterResult::Notify { sound: true }
    );
}

#[test]
fn mention_and_keyword_loudest_wins() {
    let mut config = Config::default();
    config.notifications.rooms.defaults.mentions_you = NotifyLevel::Silent;
    config.notifications.rooms.defaults.keyword_match = NotifyLevel::Noisy;
    let c = EventContext {
        is_direct: false,
        mentions_you: true,
        matched_keyword: true,
        ..ctx()
    };
    assert_eq!(evaluate(&c, &config, right_now()), FilterResult::Notify { sound: true });
}

fn me() -> UserId {
    UserId::new("@me:example.com".into()).unwrap()
}

#[test]
fn mentions_field_user_id_match() {
    let mentions = Some(Mentions { user_ids: vec!["@me:example.com".into()], room: false });
    let (you, room, _) = detect_highlights("hey", &mentions, &me(), None, &[]);
    assert!(you);
    assert!(!room);
}

#[test]
fn mentions_field_room_flag() {
    let mentions = Some(Mentions { user_ids: vec![], room: true });
    let (you, room, _) = detect_highlights("everyone read this", &mentions, &me(), None, &[]);
    assert!(!you);
    assert!(room);
}

#[test]
fn mentions_field_takes_precedence_over_body() {
    let mentions = Some(Mentions { user_ids: vec![], room: false });
    let (you, _, _) = detect_highlights("@me you should see this", &mentions, &me(), None, &[]);
    assert!(!you);
}

#[test]
fn body_fallback_localpart() {
    let (you, _, _) = detect_highlights("hey @me what do you think", &None, &me(), None, &[]);
    assert!(you);
}

#[test]
fn body_fallback_full_mxid() {
    let (you, _, _) = detect_highlights("ping @me:example.com please", &None, &me(), None, &[]);
    assert!(you);
}

#[test]
fn body_fallback_display_name() {
    let (you, _, _) = detect_highlights("hey nara, take a look", &None, &me(), Some("nara"), &[]);
    assert!(you);
}

#[test]
fn body_fallback_room() {
    let (_, room, _) = detect_highlights("@room standup in 5", &None, &me(), None, &[]);
    assert!(room);
}

#[test]
fn body_fallback_case_insensitive() {
    let (you, _, _) = detect_highlights("HEY @ME WHAT IS UP", &None, &me(), None, &[]);
    assert!(you);
}

#[test]
fn keywords_substring_case_insensitive() {
    let kws = vec!["urgent".to_string(), "boss".to_string()];

    let (_, _, kw) = detect_highlights("This is URGENT please", &None, &me(), None, &kws);
    assert!(kw);

    let (_, _, kw) = detect_highlights("the Boss is here", &None, &me(), None, &kws);
    assert!(kw);

    let (_, _, kw) = detect_highlights("nothing of note", &None, &me(), None, &kws);
    assert!(!kw);

    let (_, _, kw) = detect_highlights("urgent", &None, &me(), None, &[]);
    assert!(!kw);
}

#[test]
fn room_override_changes_message_level() {
    let mut config = Config::default();
    let ov = RoomOverride { unencrypted: Some(NotifyLevel::Noisy), ..Default::default() };
    config.notifications.rooms.overrides.insert("!room:example.com".into(), ov);
    let c = EventContext { is_direct: false, ..ctx() };
    assert_eq!(evaluate(&c, &config, right_now()), FilterResult::Notify { sound: true });
}

#[test]
fn age_limit_is_inclusive() {
    let now = LocalTime { timestamp: 1_000_000, second_of_day: 0 };
    let at = |ts: i64| EventContext { event_ts_secs: ts, ..ctx() };
    let config = Config::default();
    assert_eq!(
        evaluate(&at(1_000_000 - 60), &config, now),
        FilterResult::Notify { sound: true }
    );
    assert_eq!(evaluate(&at(1_000_000 - 61), &config, now), FilterResult::Suppress);
    assert_eq!(
        evaluate(&at(1_000_000 + 5), &config, now),
        FilterResult::Notify { sound: true }
    );
}

#[test]
fn huge_age_limit_admits_everything() {
    let now = LocalTime { timestamp: 1_000_000, second_of_day: 0 };
    let at = |ts: i64| EventContext { event_ts_secs: ts, ..ctx() };
    let mut config = Config::default();
    for limit in [i64::MAX as u64, i64::MAX as u64 + 1, u64::MAX] {
        config.behavior.max_event_age_secs = limit;
        assert_eq!(
            evaluate(&at(1_000_000), &config, now),
            FilterResult::Notify { sound: true }
        );
        assert_eq!(evaluate(&at(0), &config, now), FilterResult::Notify { sound: true });
    }
}

#[test]
fn extreme_timestamps_have_an_age() {
    let at = |ts: i64| EventContext { event_ts_secs: ts, ..ctx() };
    let last = LocalTime { timestamp: i64::MAX, second_of_day: 0 };
    let first = LocalTime { timestamp: i64::MIN, second_of_day: 0 };
    let mut config = Config::default();
    assert_eq!(evaluate(&at(i64::MIN), &config, last), FilterResult::Suppress);
    assert_eq!(evaluate(&at(i64::MAX), &config, first), FilterResult::Notify { sound: true });
    config.behavior.max_event_age_secs = u64::MAX - 1;
    assert_eq!(evaluate(&at(i64::MIN), &config, last), FilterResult::Suppress);
    config.behavior.max_event_age_secs = u64::MAX;
    assert_eq!(evaluate(&at(i64::MIN), &config, last), FilterResult::Notify { sound: true });
}

#[test]
fn overrides_judge_their_own_room() {
    let config = muted();
    let here = EventContext { is_direct: false, ..ctx() };
    let elsewhere =
        EventContext { is_direct: false, room_id: "!other:example.com".into(), ..ctx() };
    let now = right_now();
    assert_eq!(evaluate(&here, &config, now), FilterResult::Suppress);
    assert_eq!(evaluate(&elsewhere, &config, now), FilterResult::Notify { sound: false });
    assert_eq!(
        evaluate(&elsewhere, &config, now),
        evaluate(&elsewhere, &Config::default(), now)
    );
}

#[test]
fn sender_lists_in_order() {
    let mut config = Config::default();
    config.notifications.senders.noisy.push("@alice:example.com".into());
    config.notifications.senders.silent.push("@alice:example.com".into());
    assert_eq!(evaluate(&ctx(), &config, right_now()), FilterResult::Notify { sound: false });
    config.notifications.senders.off.push("@alice:example.com".into());
    assert_eq!(evaluate(&ctx(), &config, right_now()), FilterResult::Suppress);
}

#[test]
fn clock_times_are_read_leniently() {
    let noon = 12 * 3600;
    assert!(is_quiet_hours(&quiet("9:00", "17:30"), noon));
    assert!(is_quiet_hours(&quiet(" 9: 5", "17:30"), noon));
    assert!(!is_quiet_hours(&quiet("09:00 ", "17:30"), noon));
    assert!(!is_quiet_hours(&quiet("24:00", "17:30"), noon));
    assert!(!is_quiet_hours(&quiet("09:60", "17:30"), noon));
    assert!(!is_quiet_hours(&quiet("0900", "17:30"), noon));
    assert!(!is_quiet_hours(&quiet("morning", "17:30"), noon));
    assert!(!is_quiet_hours(&quiet("09:00", ""), noon));
    assert!(!is_quiet_hours(&quiet("12:00", "12:00"), noon));
    assert!(is_quiet_hours(&quiet("12:00", "12:01"), noon));
    assert!(!is_quiet_hours(&quiet("11:00", "12:00"), noon));
}

#[test]
fn windows_split_the_day() {
    let day = quiet("22:00", "06:00");
    let night = quiet("06:00", "22:00");
    for second in [0, 1, 6 * 3600 - 1, 6 * 3600, 43_200, 22 * 3600 - 1, 22 * 3600, 86_399] {
        assert_ne!(is_quiet_hours(&day, second), is_quiet_hours(&night, second));
    }
}

#[test]
fn bodies_by_message_type() {
    let mut config = Config::default();
    let body = |t: MessageType, c: &Config| format_body(&t, "alice", c);
    assert_eq!(body(MessageType::Text("hi".into()), &config), "hi");
    assert_eq!(body(MessageType::Notice("note".into()), &config), "note");
    assert_eq!(body(MessageType::Emote("waves".into()), &config), "* alice waves");
    assert_eq!(body(MessageType::Image, &config), "[image]");
    assert_eq!(body(MessageType::Video, &config), "[video]");
    assert_eq!(body(MessageType::Audio, &config), "[audio]");
    assert_eq!(body(MessageType::File("a.pdf".into()), &config), "[file: a.pdf]");
    assert_eq!(body(MessageType::Other, &config), "new message");
    config.behavior.max_body_length = 4;
    assert_eq!(body(MessageType::Text("hello".into()), &config), "hell...");
    config.behavior.show_message_body = false;
    assert_eq!(body(MessageType::Text("hello".into()), &config), "new message");
}

#[test]
fn truncation_counts_characters() {
    assert_eq!(truncate("äöü", 3), "äöü");
    assert_eq!(truncate("äöüß", 3), "äöü...");
    assert_eq!(truncate("x", 0), "...");
    assert_eq!(truncate("", 0), "");
}

#[test]
fn empty_display_name_mentions_nobody() {
    assert_eq!(detect_mentions_from_body("hello", &me(), Some("")), (false, false));
    assert_eq!(detect_mentions_from_body("HELLO NARA", &me(), Some("Nara")), (true, false));
    assert_eq!(detect_mentions_from_body("hello @Room", &me(), None), (false, true));
}

#[test]
fn user_ids_need_a_localpart() {
    assert!(UserId::new("@me:example.com".into()).is_some());
    assert!(UserId::new("nobody".into()).is_none());
    assert!(UserId::new(":".into()).is_none());
    assert!(UserId::new("".into()).is_none());
    let id = UserId::new("@me:example.com:8448".into()).unwrap();
    assert_eq!(id.localpart(), "me");
    assert_eq!(id.as_str(), "@me:example.com:8448");
    assert_eq!(id.clone().as_str(), id.as_str());
}

#[test]
fn lowered_texts_are_searched() {
    let words = vec!["urgent".to_string(), "boss".to_string()];
    assert!(keyword_in("the boss is here", &words));
    assert!(!keyword_in("The BOSS is here", &words));
    assert!(!keyword_in("nothing", &words));
    assert!(!keyword_in("urgent", &vec![]));
    assert_eq!(mentions_in("hi @me", "@me", "@me:x", None), (true, false));
    assert_eq!(mentions_in("hi nara", "@me", "@me:x", Some("nara")), (true, false));
    assert_eq!(mentions_in("hi nara", "@me", "@me:x", None), (false, false));
    assert_eq!(mentions_in("hi @room", "@me", "@me:x", None), (false, true));
}
