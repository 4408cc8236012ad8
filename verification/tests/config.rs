use psst::config::{
    classify_rooms_key, default_sound, BehaviorConfig, Config, ConfigWarning, EditMode,
    NotificationConfig, NotifyLevel, Platform, QuietHoursConfig, RawConfig, RawNotificationConfig,
    RawRoomsEntry, RawRoomsSection, RoomConfig, RoomOverride, RoomsKey, RoomsSection, SenderFilters,
};

fn level(value: &toml::Value) -> Option<NotifyLevel> {
    match value.as_str() {
        Some("off") => Some(NotifyLevel::Off),
        Some("silent") => Some(NotifyLevel::Silent),
        Some("noisy") => Some(NotifyLevel::Noisy),
        _ => None,
    }
}

fn edit_mode(value: &toml::Value) -> Option<EditMode> {
    match value.as_str() {
        Some("off") => Some(EditMode::Off),
        Some("silent") => Some(EditMode::Silent),
        Some("noisy") => Some(EditMode::Noisy),
        Some("replace") => Some(EditMode::Replace),
        _ => None,
    }
}

fn strings(value: &toml::Value) -> Option<Vec<String>> {
    value
        .as_array()?
        .iter()
        .map(|v| v.as_str().map(|s| s.to_string()))
        .collect()
}

/// What a table reads as where it is taken for a room override.
fn room_override(value: &toml::Value) -> Option<RoomOverride> {
    let mut o = RoomOverride::default();
    for (key, value) in value.as_table()? {
        match key.as_str() {
            "mute" => o.mute = value.as_bool()?,
            "unencrypted" => o.unencrypted = Some(level(value)?),
            "encrypted" => o.encrypted = Some(level(value)?),
            "mentions_you" => o.mentions_you = Some(level(value)?),
            "mentions_room" => o.mentions_room = Some(level(value)?),
            "keyword_match" => o.keyword_match = Some(level(value)?),
            "calls" => o.calls = Some(level(value)?),
            "reactions" => o.reactions = Some(level(value)?),
            "edits" => o.edits = Some(edit_mode(value)?),
            "noisy_debounce_seconds" => {
                o.noisy_debounce_seconds = Some(value.as_integer()? as u64)
            }
            "keywords" => o.keywords = Some(strings(value)?),
            _ => return None,
        }
    }
    Some(o)
}

fn rooms_section(table: &toml::Table) -> RawRoomsSection {
    let mut settings = toml::Table::new();
    let mut extras = Vec::new();
    for (key, value) in table {
        if classify_rooms_key(key) == RoomsKey::Setting {
            settings.insert(key.clone(), value.clone());
        }
        extras.push(RawRoomsEntry { key: key.clone(), as_override: room_override(value) });
    }
    RawRoomsSection {
        extras,
        defaults: room_override(&toml::Value::Table(settings))
            .map(|o| o.apply_to(RoomConfig::default_rooms())),
    }
}

fn raw(content: &str) -> RawConfig {
    let table: toml::Table = content.parse().unwrap();
    let mut notifications = RawNotificationConfig::default();
    let mut behavior = BehaviorConfig::default();
    if let Some(n) = table.get("notifications") {
        if let Some(v) = n.get("enabled") {
            notifications.enabled = v.as_bool().unwrap();
        }
        if let Some(v) = n.get("sound") {
            notifications.sound = v.as_str().unwrap().to_string();
        }
        if let Some(v) = n.get("invites") {
            notifications.invites = level(v).unwrap();
        }
        if let Some(v) = n.get("dms") {
            notifications.dms = room_override(v).unwrap();
        }
        if let Some(v) = n.get("rooms") {
            notifications.rooms = rooms_section(v.as_table().unwrap());
        }
        if let Some(v) = n.get("senders") {
            let list = |key: &str| v.get(key).map(|v| strings(v).unwrap()).unwrap_or_default();
            notifications.senders =
                SenderFilters { noisy: list("noisy"), silent: list("silent"), off: list("off") };
        }
    }
    if let Some(b) = table.get("behavior") {
        if let Some(v) = b.get("max_body_length") {
            behavior.max_body_length = v.as_integer().unwrap() as usize;
        }
        if let Some(q) = b.get("quiet_hours") {
            if let Some(v) = q.get("enabled") {
                behavior.quiet_hours.enabled = v.as_bool().unwrap();
            }
            if let Some(v) = q.get("start") {
                behavior.quiet_hours.start = v.as_str().unwrap().to_string();
            }
            if let Some(v) = q.get("end") {
                behavior.quiet_hours.end = v.as_str().unwrap().to_string();
            }
        }
    }
    RawConfig { notifications, behavior }
}

fn parse(content: &str) -> Config {
    Config::from_raw(raw(content)).0
}

#[test]
fn defaults_are_sane() {
    let c = Config::default();
    assert!(c.notifications.enabled);
    assert_eq!(c.notifications.invites, NotifyLevel::Noisy);
    assert_eq!(c.notifications.dms.unencrypted, NotifyLevel::Noisy);
    assert_eq!(c.notifications.rooms.defaults.unencrypted, NotifyLevel::Silent);
    assert_eq!(c.behavior.max_body_length, 300);
}

#[test]
fn parse_minimal() {
    let c = parse("");
    assert!(c.notifications.enabled);
}

#[test]
fn parse_partial_dms() {
    let c = parse(
        r#"
        [notifications.dms]
        unencrypted = "off"
        "#,
    );
    assert_eq!(c.notifications.dms.unencrypted, NotifyLevel::Off);
    assert_eq!(c.notifications.dms.encrypted, NotifyLevel::Noisy);
}

#[test]
fn parse_room_override() {
    let c = parse(
        r#"
        [notifications.rooms."!abc:example.com"]
        unencrypted = "noisy"
        edits = "off"
        "#,
    );
    let eff = c.notifications.effective_for("!abc:example.com", false);
    assert_eq!(eff.unencrypted, NotifyLevel::Noisy);
    assert_eq!(eff.edits, EditMode::Off);
    assert_eq!(eff.encrypted, NotifyLevel::Silent);
}

#[test]
fn parse_room_mute() {
    let c = parse(
        r#"
        [notifications.rooms."!abc:example.com"]
        mute = true
        "#,
    );
    let eff = c.notifications.effective_for("!abc:example.com", false);
    assert_eq!(eff.unencrypted, NotifyLevel::Off);
    assert_eq!(eff.mentions_you, NotifyLevel::Off);
    assert_eq!(eff.edits, EditMode::Off);
}

#[test]
fn dm_uses_dm_defaults_with_override() {
    let c = parse(
        r#"
        [notifications.rooms."!dm:example.com"]
        edits = "off"
        "#,
    );
    let eff = c.notifications.effective_for("!dm:example.com", true);
    assert_eq!(eff.unencrypted, NotifyLevel::Noisy);
    assert_eq!(eff.edits, EditMode::Off);
}

#[test]
fn parse_senders() {
    let c = parse(
        r#"
        [notifications.senders]
        noisy = ["@vip:example.com"]
        silent = ["@neutral:example.com"]
        off = ["@bot:example.com"]
        "#,
    );
    assert_eq!(c.notifications.senders.noisy, vec!["@vip:example.com"]);
    assert_eq!(c.notifications.senders.silent, vec!["@neutral:example.com"]);
    assert_eq!(c.notifications.senders.off, vec!["@bot:example.com"]);
}

#[test]
fn parse_quiet_hours() {
    let c = parse(
        r#"
        [behavior.quiet_hours]
        enabled = true
        start = "22:00"
        end = "08:00"
        "#,
    );
    assert!(c.behavior.quiet_hours.enabled);
    assert_eq!(c.behavior.quiet_hours.start, "22:00");
}

#[test]
fn loudest_picks_louder() {
    assert_eq!(NotifyLevel::Off.loudest(NotifyLevel::Silent), NotifyLevel::Silent);
    assert_eq!(NotifyLevel::Silent.loudest(NotifyLevel::Noisy), NotifyLevel::Noisy);
    assert_eq!(NotifyLevel::Noisy.loudest(NotifyLevel::Off), NotifyLevel::Noisy);
}

#[test]
fn load_missing_file() {
    let (c, warnings) = Config::load(None, Platform::Linux);
    assert!(c.notifications.enabled);
    assert!(warnings.is_empty());
}

#[test]
fn invalid_toml_errors() {
    let invalid = "not = valid = toml";
    let result = toml::Deserializer::parse(invalid);
    assert!(result.is_err());
}

#[test]
fn override_key_without_bang_dropped() {
    let (c, warnings) = Config::from_raw(raw(
        r#"
        [notifications.rooms]
        unencryptd = "noisy"
        "#,
    ));
    assert!(c.notifications.rooms.overrides.is_empty());
    assert_eq!(c.notifications.rooms.defaults.unencrypted, NotifyLevel::Silent);
    assert_eq!(warnings.len(), 1);
    assert!(matches!(&warnings[0], ConfigWarning::UnknownField(key) if key == "unencryptd"));
}

#[test]
fn override_with_invalid_inner_field_dropped() {
    let (c, warnings) = Config::from_raw(raw(
        r#"
        [notifications.rooms."!a:b"]
        this_is_not_a_field = "noisy"
        "#,
    ));
    assert!(c.notifications.rooms.overrides.is_empty());
    assert_eq!(warnings.len(), 1);
    assert!(matches!(&warnings[0], ConfigWarning::InvalidOverride(key) if key == "!a:b"));
}

#[test]
fn effective_for_with_mute_returns_all_off() {
    let c = parse(
        r#"
        [notifications.rooms."!quiet:example.com"]
        mute = true
        "#,
    );
    let eff = c.notifications.effective_for("!quiet:example.com", false);
    assert_eq!(eff.unencrypted, NotifyLevel::Off);
    assert_eq!(eff.encrypted, NotifyLevel::Off);
    assert_eq!(eff.mentions_you, NotifyLevel::Off);
    assert_eq!(eff.mentions_room, NotifyLevel::Off);
    assert_eq!(eff.keyword_match, NotifyLevel::Off);
    assert_eq!(eff.calls, NotifyLevel::Off);
    assert_eq!(eff.reactions, NotifyLevel::Off);
    assert_eq!(eff.edits, EditMode::Off);
}

#[test]
fn load_real_file_round_trip() {
    let file = raw(
        r#"
            [notifications]
            enabled = true
            sound = "Tink"
            invites = "silent"

            [notifications.dms]
            unencrypted = "off"

            [notifications.rooms."!special:example.com"]
            unencrypted = "noisy"

            [notifications.senders]
            noisy = ["@vip:example.com"]

            [behavior]
            max_body_length = 100
        "#,
    );
    let (c, warnings) = Config::load(Some(file), Platform::Linux);
    assert!(warnings.is_empty());
    assert!(c.notifications.enabled);
    assert_eq!(c.notifications.sound, "Tink");
    assert_eq!(c.notifications.invites, NotifyLevel::Silent);
    assert_eq!(c.notifications.dms.unencrypted, NotifyLevel::Off);
    assert_eq!(c.notifications.dms.encrypted, NotifyLevel::Noisy);
    assert!(c.notifications.rooms.overrides.contains_key("!special:example.com"));
    let eff = c.notifications.effective_for("!special:example.com", false);
    assert_eq!(eff.unencrypted, NotifyLevel::Noisy);
    assert_eq!(c.notifications.senders.noisy, vec!["@vip:example.com"]);
    assert_eq!(c.behavior.max_body_length, 100);
}

fn senders(noisy: &[&str], silent: &[&str], off: &[&str]) -> SenderFilters {
    SenderFilters {
        noisy: noisy.iter().map(|s| s.to_string()).collect(),
        silent: silent.iter().map(|s| s.to_string()).collect(),
        off: off.iter().map(|s| s.to_string()).collect(),
    }
}

#[test]
fn sender_filters_contains_finds_in_each_list() {
    let s = senders(&["@a:x"], &["@b:x"], &["@c:x"]);
    assert!(s.contains("@a:x"));
    assert!(s.contains("@b:x"));
    assert!(s.contains("@c:x"));
}

#[test]
fn sender_filters_contains_returns_false_when_not_listed() {
    let s = senders(&["@a:x"], &["@b:x"], &["@c:x"]);
    assert!(!s.contains("@unknown:x"));
}

#[test]
fn documented_defaults() {
    let c = Config::default();
    let dms = &c.notifications.dms;
    assert_eq!(dms.encrypted, NotifyLevel::Noisy);
    assert_eq!(dms.mentions_you, NotifyLevel::Noisy);
    assert_eq!(dms.mentions_room, NotifyLevel::Noisy);
    assert_eq!(dms.keyword_match, NotifyLevel::Noisy);
    assert_eq!(dms.calls, NotifyLevel::Noisy);
    assert_eq!(dms.reactions, NotifyLevel::Noisy);
    assert_eq!(dms.edits, EditMode::Replace);
    assert_eq!(dms.noisy_debounce_seconds, 0);
    assert!(dms.keywords.is_empty());
    let rooms = &c.notifications.rooms.defaults;
    assert_eq!(rooms.encrypted, NotifyLevel::Silent);
    assert_eq!(rooms.mentions_you, NotifyLevel::Noisy);
    assert_eq!(rooms.mentions_room, NotifyLevel::Silent);
    assert_eq!(rooms.keyword_match, NotifyLevel::Noisy);
    assert_eq!(rooms.calls, NotifyLevel::Noisy);
    assert_eq!(rooms.reactions, NotifyLevel::Silent);
    assert_eq!(rooms.edits, EditMode::Replace);
    assert_eq!(rooms.noisy_debounce_seconds, 0);
    assert!(rooms.keywords.is_empty());
    assert!(c.notifications.rooms.overrides.is_empty());
    assert!(c.behavior.show_message_body);
    assert_eq!(c.behavior.max_event_age_secs, 60);
    let quiet = QuietHoursConfig::default();
    assert!(!quiet.enabled);
    assert_eq!(quiet.start, "23:00");
    assert_eq!(quiet.end, "07:00");
    assert_eq!(quiet.timezone, "local");
}

#[test]
fn sound_depends_on_the_platform() {
    assert_eq!(default_sound(Platform::Macos), "Blow");
    assert_eq!(default_sound(Platform::Linux), "message-new-instant");
    assert_eq!(default_sound(Platform::Other), "message-new-instant");
    assert_eq!(NotificationConfig::for_platform(Platform::Macos).sound, "Blow");
    assert_eq!(Config::default().notifications.sound, "message-new-instant");
}

#[test]
fn rooms_keys_are_told_apart() {
    assert_eq!(classify_rooms_key("keywords"), RoomsKey::Setting);
    assert_eq!(classify_rooms_key("noisy_debounce_seconds"), RoomsKey::Setting);
    assert_eq!(classify_rooms_key("!room:example.com"), RoomsKey::Override);
    assert_eq!(classify_rooms_key("mute"), RoomsKey::Unknown);
    assert_eq!(classify_rooms_key(""), RoomsKey::Unknown);
}

#[test]
fn invalid_room_settings_fall_back() {
    let (section, warnings) = RoomsSection::from_raw(
        RawRoomsSection {
            extras: vec![
                RawRoomsEntry { key: "unencrypted".into(), as_override: None },
                RawRoomsEntry {
                    key: "!a:b".into(),
                    as_override: Some(RoomOverride { mute: true, ..Default::default() }),
                },
            ],
            defaults: None,
        },
        RoomConfig::default_rooms(),
    );
    assert_eq!(section.defaults.unencrypted, NotifyLevel::Silent);
    assert_eq!(section.overrides.keys(), vec!["!a:b".to_string()]);
    assert_eq!(warnings.len(), 1);
    assert!(matches!(warnings[0], ConfigWarning::InvalidDefaults));
}

#[test]
fn override_keeps_what_it_does_not_set() {
    let base = RoomConfig { keywords: vec!["urgent".into()], ..RoomConfig::default_rooms() };
    let same = RoomOverride::default().apply_to(base.clone());
    assert_eq!(same.unencrypted, base.unencrypted);
    assert_eq!(same.keywords, base.keywords);
    let o = RoomOverride {
        noisy_debounce_seconds: Some(7),
        keywords: Some(vec!["boss".into()]),
        ..Default::default()
    };
    let once = o.apply_to(base.clone());
    let twice = o.apply_to(once.clone());
    assert_eq!(once.noisy_debounce_seconds, 7);
    assert_eq!(once.keywords, vec!["boss".to_string()]);
    assert_eq!(once.calls, base.calls);
    assert_eq!(twice.noisy_debounce_seconds, once.noisy_debounce_seconds);
    assert_eq!(twice.keywords, once.keywords);
}

#[test]
fn override_leaves_other_rooms_alone() {
    let mut c = Config::default();
    c.notifications
        .rooms
        .overrides
        .insert("!a:x".into(), RoomOverride { mute: true, ..Default::default() });
    assert_eq!(c.notifications.effective_for("!a:x", false).calls, NotifyLevel::Off);
    assert_eq!(c.notifications.effective_for("!b:x", false).calls, NotifyLevel::Noisy);
}

#[test]
fn paths_are_resolved_in_order() {
    assert_eq!(Config::resolve_config_path(Some("cli"), Some("env"), "default"), "cli");
    assert_eq!(Config::resolve_config_path(None, Some("env"), "default"), "env");
    assert_eq!(Config::resolve_config_path(None, None, "default"), "default");
    assert_eq!(Config::resolve_data_dir(Some("cli"), None, "default"), "cli");
    assert_eq!(Config::resolve_data_dir(None, Some("env"), "default"), "env");
    assert_eq!(Config::resolve_data_dir(None, None, "default"), "default");
}

#[test]
fn empty_file_is_no_file() {
    let (file, warnings) = Config::load(Some(RawConfig::default()), Platform::Linux);
    let (none, _) = Config::load(None, Platform::Linux);
    assert!(warnings.is_empty());
    assert_eq!(file.notifications.sound, none.notifications.sound);
    assert_eq!(file.notifications.invites, none.notifications.invites);
    assert_eq!(file.notifications.dms.calls, none.notifications.dms.calls);
    assert_eq!(file.notifications.dms.edits, none.notifications.dms.edits);
    assert_eq!(
        file.notifications.rooms.defaults.reactions,
        none.notifications.rooms.defaults.reactions
    );
    assert!(file.notifications.rooms.overrides.is_empty());
    assert_eq!(file.behavior.max_event_age_secs, none.behavior.max_event_age_secs);
    assert_eq!(file.behavior.quiet_hours.start, none.behavior.quiet_hours.start);
}
