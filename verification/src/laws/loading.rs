//! Laws of single calls that make, load and apply settings: what comes back, said of the arguments
//! as they were given.
use vstd::prelude::*;

use crate::config::{
    classify_rooms_key, default_sound, invalid_overrides, overrides_of, rooms_key, unknown_fields,
    warning_views, BehaviorConfig, Config, ConfigWarning, ConfigWarningView, EditMode,
    NotificationConfig, NotifyLevel, Platform, QuietHoursConfig, RawConfig, RawNotificationConfig,
    RawRoomsEntry, RawRoomsSection, RoomConfig, RoomOverride, RoomsKey, RoomsSection, SenderFilters,
};
use crate::laws::evaluation::{listed, named_is_among_the_texts};
use crate::text::texts;

verus! {

/// Whether two settings of rooms say the same, field by field.
pub open spec fn same_settings(a: RoomConfig, b: RoomConfig) -> bool {
    &&& a.unencrypted == b.unencrypted
    &&& a.encrypted == b.encrypted
    &&& a.mentions_you == b.mentions_you
    &&& a.mentions_room == b.mentions_room
    &&& a.keyword_match == b.keyword_match
    &&& a.calls == b.calls
    &&& a.reactions == b.reactions
    &&& a.edits == b.edits
    &&& a.noisy_debounce_seconds == b.noisy_debounce_seconds
    &&& same_texts(a.keywords@, b.keywords@)
}

/// Whether two lists of strings read the same.
pub open spec fn same_texts(a: Seq<String>, b: Seq<String>) -> bool {
    a.len() == b.len() && forall|i: int| 0 <= i < a.len() ==> (#[trigger] a[i])@ == b[i]@
}

/// Lists with equal texts read the same.
proof fn equal_texts_are_the_same(a: Seq<String>, b: Seq<String>)
    requires
        texts(a) == texts(b),
    ensures
        same_texts(a, b),
{
    assert(texts(a).len() == a.len() && texts(b).len() == b.len());
    assert forall|i: int| 0 <= i < a.len() implies (#[trigger] a[i])@ == b[i]@ by {
        assert(texts(a)[i] == a[i]@);
        assert(texts(b)[i] == b[i]@);
    }
}

/// Whether the settings are those that direct chats have where nothing is configured: everything
/// noisy, edits replace, no debounce and no keywords.
pub open spec fn dm_defaults(c: RoomConfig) -> bool {
    &&& c.unencrypted == NotifyLevel::Noisy
    &&& c.encrypted == NotifyLevel::Noisy
    &&& c.mentions_you == NotifyLevel::Noisy
    &&& c.mentions_room == NotifyLevel::Noisy
    &&& c.keyword_match == NotifyLevel::Noisy
    &&& c.calls == NotifyLevel::Noisy
    &&& c.reactions == NotifyLevel::Noisy
    &&& c.edits == EditMode::Replace
    &&& c.noisy_debounce_seconds == 0
    &&& c.keywords@.len() == 0
}

/// Whether the settings are those that rooms have where nothing is configured: mentions of the user,
/// keyword matches and calls noisy, the rest silent, edits replace, no debounce and no keywords.
pub open spec fn room_defaults(c: RoomConfig) -> bool {
    &&& c.unencrypted == NotifyLevel::Silent
    &&& c.encrypted == NotifyLevel::Silent
    &&& c.mentions_you == NotifyLevel::Noisy
    &&& c.mentions_room == NotifyLevel::Silent
    &&& c.keyword_match == NotifyLevel::Noisy
    &&& c.calls == NotifyLevel::Noisy
    &&& c.reactions == NotifyLevel::Silent
    &&& c.edits == EditMode::Replace
    &&& c.noisy_debounce_seconds == 0
    &&& c.keywords@.len() == 0
}

/// Whether the settings turn everything off.
pub open spec fn all_off(c: RoomConfig) -> bool {
    &&& c.unencrypted == NotifyLevel::Off
    &&& c.encrypted == NotifyLevel::Off
    &&& c.mentions_you == NotifyLevel::Off
    &&& c.mentions_room == NotifyLevel::Off
    &&& c.keyword_match == NotifyLevel::Off
    &&& c.calls == NotifyLevel::Off
    &&& c.reactions == NotifyLevel::Off
    &&& c.edits == EditMode::Off
    &&& c.noisy_debounce_seconds == 0
    &&& c.keywords@.len() == 0
}

/// Whether `r` is what is set, or else what was there.
pub open spec fn set_else<T>(r: T, set: Option<T>, there: T) -> bool {
    &&& set matches Some(v) ==> r == v
    &&& set is None ==> r == there
}

/// Whether the settings are those of `base` with what the override sets put in their place, or all
/// off where it mutes.
pub open spec fn overridden(r: RoomConfig, o: RoomOverride, base: RoomConfig) -> bool {
    &&& o.mute ==> all_off(r)
    &&& !o.mute ==> {
        &&& set_else(r.unencrypted, o.unencrypted, base.unencrypted)
        &&& set_else(r.encrypted, o.encrypted, base.encrypted)
        &&& set_else(r.mentions_you, o.mentions_you, base.mentions_you)
        &&& set_else(r.mentions_room, o.mentions_room, base.mentions_room)
        &&& set_else(r.keyword_match, o.keyword_match, base.keyword_match)
        &&& set_else(r.calls, o.calls, base.calls)
        &&& set_else(r.reactions, o.reactions, base.reactions)
        &&& set_else(r.edits, o.edits, base.edits)
        &&& set_else(r.noisy_debounce_seconds, o.noisy_debounce_seconds, base.noisy_debounce_seconds)
        &&& o.keywords matches Some(k) ==> same_texts(r.keywords@, k@)
        &&& o.keywords is None ==> same_texts(r.keywords@, base.keywords@)
    }
}

/// Settings with equal models say the same.
proof fn equal_settings_are_the_same(a: RoomConfig, b: RoomConfig)
    requires
        a@ == b@,
    ensures
        same_settings(a, b),
{
    equal_texts_are_the_same(a.keywords@, b.keywords@);
}

/// What the model of an override makes of settings is what the override does to them.
proof fn applied_is_overridden(r: RoomConfig, o: RoomOverride, base: RoomConfig)
    requires
        r@ == o@.applied_to(base@),
    ensures
        overridden(r, o, base),
{
    assert(texts(r.keywords@).len() == r.keywords@.len());
    if !o.mute {
        match o.keywords {
            Some(k) => equal_texts_are_the_same(r.keywords@, k@),
            None => equal_texts_are_the_same(r.keywords@, base.keywords@),
        }
    }
}

/// The louder of two levels is noisy where one of them is, and off only where both are.
pub proof fn the_louder_level_wins(a: NotifyLevel, b: NotifyLevel, r: NotifyLevel)
    requires
        call_ensures(NotifyLevel::loudest, (a, b), r),
    ensures
        (r == NotifyLevel::Noisy) == (a == NotifyLevel::Noisy || b == NotifyLevel::Noisy),
        (r == NotifyLevel::Off) == (a == NotifyLevel::Off && b == NotifyLevel::Off),
{
}

/// The built-in settings are what the documentation lists.
pub proof fn built_in_settings(dms: RoomConfig, rooms: RoomConfig, muted: RoomConfig)
    requires
        call_ensures(RoomConfig::default_dms, (), dms),
        call_ensures(RoomConfig::default_rooms, (), rooms),
        call_ensures(RoomConfig::muted, (), muted),
    ensures
        dm_defaults(dms),
        room_defaults(rooms),
        all_off(muted),
{
    assert(texts(dms.keywords@).len() == dms.keywords@.len());
    assert(texts(rooms.keywords@).len() == rooms.keywords@.len());
    assert(texts(muted.keywords@).len() == muted.keywords@.len());
}

/// An override puts what it sets in the place of what holds otherwise, setting by setting; one that
/// mutes turns everything off.
pub proof fn overrides_replace_what_they_set(o: RoomOverride, base: RoomConfig, r: RoomConfig)
    requires
        call_ensures(RoomOverride::apply_to, (&o, base), r),
    ensures
        overridden(r, o, base),
{
    applied_is_overridden(r, o, base);
}

/// A room without an override has the settings of direct chats where it is one, and those of all
/// rooms where it is not; an override is applied to the same.
pub proof fn rooms_have_the_settings_of_their_kind(
    config: NotificationConfig,
    room_id: &str,
    is_direct: bool,
    r: RoomConfig,
)
    requires
        call_ensures(NotificationConfig::effective_for, (&config, room_id, is_direct), r),
    ensures
        !config.rooms.overrides@.contains_key(room_id@) && is_direct ==> same_settings(
            r,
            config.dms,
        ),
        !config.rooms.overrides@.contains_key(room_id@) && !is_direct ==> same_settings(
            r,
            config.rooms.defaults,
        ),
        config.rooms.overrides@.contains_key(room_id@) && is_direct ==> overridden(
            r,
            config.rooms.overrides@[room_id@],
            config.dms,
        ),
        config.rooms.overrides@.contains_key(room_id@) && !is_direct ==> overridden(
            r,
            config.rooms.overrides@[room_id@],
            config.rooms.defaults,
        ),
{
    let base = if is_direct {
        config.dms
    } else {
        config.rooms.defaults
    };
    let overrides = config.rooms.overrides@;
    assert(config@.rooms.overrides.contains_key(room_id@) == overrides.contains_key(room_id@));
    if overrides.contains_key(room_id@) {
        let o = overrides[room_id@];
        assert(config@.rooms.overrides[room_id@] == o@);
        applied_is_overridden(r, o, base);
    } else {
        equal_settings_are_the_same(r, base);
    }
}

/// A sender is contained in the filters where one of the three lists names them.
pub proof fn filters_contain_whom_they_list(config: Config, sender: &str, r: bool)
    requires
        call_ensures(SenderFilters::contains, (&config.notifications.senders, sender), r),
    ensures
        r == listed(config, sender@),
{
    let senders = config.notifications.senders;
    named_is_among_the_texts(senders.off@, sender@);
    named_is_among_the_texts(senders.silent@, sender@);
    named_is_among_the_texts(senders.noisy@, sender@);
}

/// Whether a key of the rooms table is a setting.
pub open spec fn setting(key: Seq<char>) -> bool {
    ||| key == "unencrypted"@
    ||| key == "encrypted"@
    ||| key == "mentions_you"@
    ||| key == "mentions_room"@
    ||| key == "keyword_match"@
    ||| key == "calls"@
    ||| key == "reactions"@
    ||| key == "edits"@
    ||| key == "noisy_debounce_seconds"@
    ||| key == "keywords"@
}

/// Whether a key of the rooms table is a room id.
pub open spec fn room_key(key: Seq<char>) -> bool {
    key.len() > 0 && key[0] == '!'
}

/// No setting is called like a room.
proof fn settings_are_no_rooms(key: Seq<char>)
    requires
        setting(key),
    ensures
        !room_key(key),
{
    reveal_strlit("unencrypted");
    reveal_strlit("encrypted");
    reveal_strlit("mentions_you");
    reveal_strlit("mentions_room");
    reveal_strlit("keyword_match");
    reveal_strlit("calls");
    reveal_strlit("reactions");
    reveal_strlit("edits");
    reveal_strlit("noisy_debounce_seconds");
    reveal_strlit("keywords");
}

/// What keys stand for.
proof fn keys_by_their_form(key: Seq<char>)
    ensures
        (rooms_key(key) == RoomsKey::Setting) == setting(key),
        (rooms_key(key) == RoomsKey::Override) == room_key(key),
        (rooms_key(key) == RoomsKey::Unknown) == (!setting(key) && !room_key(key)),
{
    if setting(key) {
        settings_are_no_rooms(key);
    }
}

/// A key of the rooms table is one of ten settings, or a room id where it starts with `!`; any
/// other is unknown.
pub proof fn keys_are_settings_or_rooms(key: &str, r: RoomsKey)
    requires
        call_ensures(classify_rooms_key, (key,), r),
    ensures
        (r == RoomsKey::Setting) == setting(key@),
        (r == RoomsKey::Override) == room_key(key@),
        (r == RoomsKey::Unknown) == (!setting(key@) && !room_key(key@)),
{
    keys_by_their_form(key@);
}

/// Whether the entry at `i` is the last valid one for its room.
pub open spec fn decides(extras: Seq<RawRoomsEntry>, i: int) -> bool {
    &&& 0 <= i < extras.len()
    &&& room_key(extras[i].key@)
    &&& extras[i].as_override is Some
    &&& forall|j: int|
        i < j < extras.len() && (#[trigger] extras[j]).key@ == extras[i].key@
            ==> extras[j].as_override is None
}

/// The last valid entry for a room gives its override.
proof fn last_entry_decides(extras: Seq<RawRoomsEntry>, i: int)
    requires
        decides(extras, i),
    ensures
        overrides_of(extras).contains_key(extras[i].key@),
        overrides_of(extras)[extras[i].key@] == extras[i].as_override->0@,
    decreases extras.len(),
{
    keys_by_their_form(extras[i].key@);
    if i < extras.len() - 1 {
        let before = extras.drop_last();
        assert(before[i] == extras[i]);
        assert forall|j: int|
            i < j < before.len() && (#[trigger] before[j]).key@ == before[i].key@ implies before[j].as_override
            is None by {
            assert(extras[j] == before[j]);
        }
        last_entry_decides(before, i);
        assert(extras[extras.len() - 1] == extras.last());
    }
}

/// A room without a valid entry has no override.
proof fn only_entries_override(extras: Seq<RawRoomsEntry>, key: Seq<char>)
    requires
        overrides_of(extras).contains_key(key),
    ensures
        exists|i: int|
            0 <= i < extras.len() && (#[trigger] extras[i]).key@ == key && room_key(key)
                && extras[i].as_override is Some,
{
    keys_by_their_form(key);
    crate::laws::settings::overrides_are_for_rooms(extras, key);
}

/// Whether a configuration's settings of rooms are those of the table: what it sets for all rooms,
/// or `default` where that is invalid, and for each room the last valid override of it.
pub open spec fn rooms_loaded(rooms: RoomsSection, raw: RawRoomsSection, default: RoomConfig) -> bool {
    &&& raw.defaults matches Some(c) ==> same_settings(rooms.defaults, c)
    &&& raw.defaults is None ==> same_settings(rooms.defaults, default)
    &&& forall|i: int| #[trigger]
        decides(raw.extras@, i) ==> rooms.overrides@.contains_key(raw.extras@[i].key@)
            && rooms.overrides@[raw.extras@[i].key@]@ == raw.extras@[i].as_override->0@
    &&& forall|key: Seq<char>| #[trigger]
        rooms.overrides@.contains_key(key) ==> exists|i: int|
            0 <= i < raw.extras@.len() && (#[trigger] raw.extras@[i]).key@ == key && room_key(key)
                && raw.extras@[i].as_override is Some
}

/// What the overrides of a loaded table are.
proof fn table_is_loaded(rooms: RoomsSection, raw: RawRoomsSection)
    requires
        rooms@.overrides == overrides_of(raw.extras@),
    ensures
        forall|i: int| #[trigger]
            decides(raw.extras@, i) ==> rooms.overrides@.contains_key(raw.extras@[i].key@)
                && rooms.overrides@[raw.extras@[i].key@]@ == raw.extras@[i].as_override->0@,
        forall|key: Seq<char>| #[trigger]
            rooms.overrides@.contains_key(key) ==> exists|i: int|
                0 <= i < raw.extras@.len() && (#[trigger] raw.extras@[i]).key@ == key && room_key(key)
                    && raw.extras@[i].as_override is Some,
{
    assert forall|i: int| #[trigger]
        decides(raw.extras@, i) implies rooms.overrides@.contains_key(raw.extras@[i].key@)
        && rooms.overrides@[raw.extras@[i].key@]@ == raw.extras@[i].as_override->0@ by {
        last_entry_decides(raw.extras@, i);
        assert(rooms@.overrides.contains_key(raw.extras@[i].key@));
    }
    assert forall|key: Seq<char>| #[trigger]
        rooms.overrides@.contains_key(key) implies exists|i: int|
        0 <= i < raw.extras@.len() && (#[trigger] raw.extras@[i]).key@ == key && room_key(key)
            && raw.extras@[i].as_override is Some by {
        assert(rooms@.overrides.contains_key(key));
        only_entries_override(raw.extras@, key);
    }
}

/// A rooms table is loaded as it is written.
pub proof fn rooms_tables_are_loaded(
    raw: RawRoomsSection,
    default: RoomConfig,
    r: (RoomsSection, Vec<ConfigWarning>),
)
    requires
        call_ensures(RoomsSection::from_raw, (raw, default), r),
    ensures
        rooms_loaded(r.0, raw, default),
{
    match raw.defaults {
        Some(c) => equal_texts_are_the_same(r.0.defaults.keywords@, c.keywords@),
        None => equal_texts_are_the_same(r.0.defaults.keywords@, default.keywords@),
    }
    table_is_loaded(r.0, raw);
}

/// A configuration file is loaded as it is written: the settings of all rooms hold in every field as
/// the file has them, or as they are built in where they are invalid; those of direct chats are the
/// built-in ones with what the file sets in their place; and all else is taken over unchanged.
pub proof fn files_are_loaded_as_written(
    raw: RawConfig,
    dms: RoomConfig,
    rooms: RoomConfig,
    r: (Config, Vec<ConfigWarning>),
)
    requires
        call_ensures(Config::from_raw, (raw,), r),
        dm_defaults(dms),
        room_defaults(rooms),
    ensures
        rooms_loaded(r.0.notifications.rooms, raw.notifications.rooms, rooms),
        overridden(r.0.notifications.dms, raw.notifications.dms, dms),
        r.0.notifications.enabled == raw.notifications.enabled,
        r.0.notifications.sound@ == raw.notifications.sound@,
        r.0.notifications.invites == raw.notifications.invites,
        same_texts(r.0.notifications.senders.noisy@, raw.notifications.senders.noisy@),
        same_texts(r.0.notifications.senders.silent@, raw.notifications.senders.silent@),
        same_texts(r.0.notifications.senders.off@, raw.notifications.senders.off@),
        same_behavior(r.0.behavior, raw.behavior),
{
    assert(dms@.keywords =~= Seq::<Seq<char>>::empty());
    assert(rooms@.keywords =~= Seq::<Seq<char>>::empty());
    let n = r.0.notifications;
    match raw.notifications.rooms.defaults {
        Some(c) => equal_texts_are_the_same(n.rooms.defaults.keywords@, c.keywords@),
        None => equal_texts_are_the_same(n.rooms.defaults.keywords@, rooms.keywords@),
    }
    applied_is_overridden(n.dms, raw.notifications.dms, dms);
    table_is_loaded(n.rooms, raw.notifications.rooms);
    assert(r.0@.notifications.senders == n.senders@);
    assert(n.senders@ == raw.notifications.senders@);
    equal_texts_are_the_same(n.senders.noisy@, raw.notifications.senders.noisy@);
    equal_texts_are_the_same(n.senders.silent@, raw.notifications.senders.silent@);
    equal_texts_are_the_same(n.senders.off@, raw.notifications.senders.off@);
}

/// Whether two behaviors are the same, field by field.
pub open spec fn same_behavior(a: BehaviorConfig, b: BehaviorConfig) -> bool {
    &&& a.show_message_body == b.show_message_body
    &&& a.max_body_length == b.max_body_length
    &&& a.max_event_age_secs == b.max_event_age_secs
    &&& a.quiet_hours.enabled == b.quiet_hours.enabled
    &&& a.quiet_hours.start@ == b.quiet_hours.start@
    &&& a.quiet_hours.end@ == b.quiet_hours.end@
    &&& a.quiet_hours.timezone@ == b.quiet_hours.timezone@
}

/// What a file sets for all rooms is what holds in a room that it gives no override and that is no
/// direct chat.
pub proof fn room_settings_of_a_file_hold_in_rooms(
    raw: RawConfig,
    loaded: (Config, Vec<ConfigWarning>),
    room_id: &str,
    r: RoomConfig,
)
    requires
        call_ensures(Config::from_raw, (raw,), loaded),
        raw.notifications.rooms.defaults is Some,
        forall|i: int|
            0 <= i < raw.notifications.rooms.extras@.len() ==> (
            #[trigger] raw.notifications.rooms.extras@[i]).key@ != room_id@,
        call_ensures(
            NotificationConfig::effective_for,
            (&loaded.0.notifications, room_id, false),
            r,
        ),
    ensures
        same_settings(r, raw.notifications.rooms.defaults->0),
{
    let rooms = loaded.0.notifications.rooms;
    if rooms.overrides@.contains_key(room_id@) {
        assert(rooms@.overrides.contains_key(room_id@));
        assert(loaded.0@.notifications.rooms.overrides.contains_key(room_id@));
        only_entries_override(raw.notifications.rooms.extras@, room_id@);
    }
    rooms_have_the_settings_of_their_kind(loaded.0.notifications, room_id, false, r);
    equal_texts_are_the_same(
        rooms.defaults.keywords@,
        raw.notifications.rooms.defaults->0.keywords@,
    );
}

/// Whether a warning is about an unknown key.
pub open spec fn warns_of_field(w: ConfigWarning, key: Seq<char>) -> bool {
    w matches ConfigWarning::UnknownField(k) && k@ == key
}

/// Whether a warning is about an invalid override.
pub open spec fn warns_of_override(w: ConfigWarning, key: Seq<char>) -> bool {
    w matches ConfigWarning::InvalidOverride(k) && k@ == key
}

/// How many entries the loading of a table passes over.
pub open spec fn passed_over(extras: Seq<RawRoomsEntry>) -> nat
    decreases extras.len(),
{
    if extras.len() == 0 {
        0
    } else {
        let e = extras.last();
        passed_over(extras.drop_last()) + if (!setting(e.key@) && !room_key(e.key@)) || (room_key(
            e.key@,
        ) && e.as_override is None) {
            1nat
        } else {
            0nat
        }
    }
}

/// The warnings about entries are about those that are passed over.
proof fn warnings_name_entries(extras: Seq<RawRoomsEntry>)
    ensures
        unknown_fields(extras).len() + invalid_overrides(extras).len() == passed_over(extras),
        forall|i: int|
            0 <= i < extras.len() && !setting((#[trigger] extras[i]).key@) && !room_key(
                extras[i].key@,
            ) ==> unknown_fields(extras).contains(ConfigWarningView::UnknownField(extras[i].key@)),
        forall|i: int|
            0 <= i < extras.len() && room_key((#[trigger] extras[i]).key@)
                && extras[i].as_override is None ==> invalid_overrides(extras).contains(
                ConfigWarningView::InvalidOverride(extras[i].key@),
            ),
        forall|k: int|
            0 <= k < unknown_fields(extras).len() ==> (#[trigger] unknown_fields(
                extras,
            )[k]) is UnknownField,
        forall|k: int|
            0 <= k < invalid_overrides(extras).len() ==> (#[trigger] invalid_overrides(
                extras,
            )[k]) is InvalidOverride,
    decreases extras.len(),
{
    if extras.len() > 0 {
        let before = extras.drop_last();
        let e = extras.last();
        warnings_name_entries(before);
        keys_by_their_form(e.key@);
        if setting(e.key@) {
            settings_are_no_rooms(e.key@);
        }
        assert forall|i: int|
            0 <= i < extras.len() && !setting((#[trigger] extras[i]).key@) && !room_key(
                extras[i].key@,
            ) implies unknown_fields(extras).contains(
            ConfigWarningView::UnknownField(extras[i].key@),
        ) by {
            let w = ConfigWarningView::UnknownField(extras[i].key@);
            if i < before.len() {
                assert(before[i] == extras[i]);
                let k = choose|k: int|
                    0 <= k < unknown_fields(before).len() && unknown_fields(before)[k] == w;
                assert(unknown_fields(extras)[k] == w);
            } else {
                assert(unknown_fields(extras).last() == w);
            }
        }
        assert forall|i: int|
            0 <= i < extras.len() && room_key((#[trigger] extras[i]).key@)
                && extras[i].as_override is None implies invalid_overrides(extras).contains(
            ConfigWarningView::InvalidOverride(extras[i].key@),
        ) by {
            let w = ConfigWarningView::InvalidOverride(extras[i].key@);
            if i < before.len() {
                assert(before[i] == extras[i]);
                let k = choose|k: int|
                    0 <= k < invalid_overrides(before).len() && invalid_overrides(before)[k] == w;
                assert(invalid_overrides(extras)[k] == w);
            } else {
                assert(invalid_overrides(extras).last() == w);
            }
        }
    }
}

/// Where a warning stands among the others: unknown keys come first, then the settings of all rooms,
/// then overrides.
pub open spec fn warning_rank(w: ConfigWarning) -> int {
    match w {
        ConfigWarning::UnknownField(_) => 0,
        ConfigWarning::InvalidDefaults => 1,
        ConfigWarning::InvalidOverride(_) => 2,
    }
}

/// Nothing in a configuration file is passed over in silence: each unknown key and each invalid
/// override is warned of by its name, invalid settings of all rooms are warned of, and there is no
/// other warning. Unknown keys come first, then the settings of all rooms, then overrides.
pub proof fn nothing_is_passed_over_in_silence(raw: RawConfig, r: (Config, Vec<ConfigWarning>))
    requires
        call_ensures(Config::from_raw, (raw,), r),
    ensures
        r.1@.len() == passed_over(raw.notifications.rooms.extras@) + if raw.notifications.rooms.defaults is None {
            1nat
        } else {
            0nat
        },
        forall|i: int|
            0 <= i < raw.notifications.rooms.extras@.len() && !setting(
                (#[trigger] raw.notifications.rooms.extras@[i]).key@,
            ) && !room_key(raw.notifications.rooms.extras@[i].key@) ==> exists|k: int|
                0 <= k < r.1@.len() && warns_of_field(
                    #[trigger] r.1@[k],
                    raw.notifications.rooms.extras@[i].key@,
                ),
        forall|i: int|
            0 <= i < raw.notifications.rooms.extras@.len() && room_key(
                (#[trigger] raw.notifications.rooms.extras@[i]).key@,
            ) && raw.notifications.rooms.extras@[i].as_override is None ==> exists|k: int|
                0 <= k < r.1@.len() && warns_of_override(
                    #[trigger] r.1@[k],
                    raw.notifications.rooms.extras@[i].key@,
                ),
        raw.notifications.rooms.defaults is None ==> exists|k: int|
            0 <= k < r.1@.len() && #[trigger] r.1@[k] is InvalidDefaults,
        forall|i: int, j: int|
            0 <= i < j < r.1@.len() ==> warning_rank(#[trigger] r.1@[i]) <= warning_rank(
                #[trigger] r.1@[j],
            ),
{
    let table = raw.notifications.rooms;
    let extras = table.extras@;
    warnings_name_entries(extras);
    let views = warning_views(r.1@);
    let unknown = unknown_fields(extras);
    let invalid = invalid_overrides(extras);
    let middle = if table.defaults is None {
        seq![ConfigWarningView::InvalidDefaults]
    } else {
        seq![]
    };
    assert(views == unknown + middle + invalid);
    assert forall|i: int|
        0 <= i < extras.len() && !setting((#[trigger] extras[i]).key@) && !room_key(
            extras[i].key@,
        ) implies exists|k: int|
        0 <= k < r.1@.len() && warns_of_field(#[trigger] r.1@[k], extras[i].key@) by {
        let w = ConfigWarningView::UnknownField(extras[i].key@);
        let k = choose|k: int| 0 <= k < unknown.len() && unknown[k] == w;
        assert(views[k] == w);
        assert(warns_of_field(r.1@[k], extras[i].key@));
    }
    assert forall|i: int|
        0 <= i < extras.len() && room_key((#[trigger] extras[i]).key@)
            && extras[i].as_override is None implies exists|k: int|
        0 <= k < r.1@.len() && warns_of_override(#[trigger] r.1@[k], extras[i].key@) by {
        let w = ConfigWarningView::InvalidOverride(extras[i].key@);
        let k = choose|k: int| 0 <= k < invalid.len() && invalid[k] == w;
        let at = unknown.len() + middle.len() + k;
        assert(views[at as int] == w);
        assert(warns_of_override(r.1@[at as int], extras[i].key@));
    }
    assert forall|i: int, j: int| 0 <= i < j < r.1@.len() implies warning_rank(#[trigger] r.1@[i])
        <= warning_rank(#[trigger] r.1@[j]) by {
        let head = unknown.len() as int;
        let tail = head + middle.len();
        assert(views[i] == r.1@[i]@ && views[j] == r.1@[j]@);
        if i >= tail {
            assert(views[i] == invalid[i - tail]);
        } else if i < head {
            assert(views[i] == unknown[i]);
        }
        if j >= tail {
            assert(views[j] == invalid[j - tail]);
        } else if j < head {
            assert(views[j] == unknown[j]);
        }
    }
    if table.defaults is None {
        assert(views[unknown.len() as int] == ConfigWarningView::InvalidDefaults);
        assert(r.1@[unknown.len() as int] is InvalidDefaults);
    }
}

/// Whether the configuration is the one that the documentation gives for where there is no file.
pub open spec fn built_in(c: Config, platform: Platform) -> bool {
    &&& c.notifications.enabled
    &&& c.notifications.sound@ == if platform == Platform::Macos {
        "Blow"@
    } else {
        "message-new-instant"@
    }
    &&& c.notifications.invites == NotifyLevel::Noisy
    &&& dm_defaults(c.notifications.dms)
    &&& room_defaults(c.notifications.rooms.defaults)
    &&& forall|key: Seq<char>| !#[trigger] c.notifications.rooms.overrides@.contains_key(key)
    &&& c.notifications.senders.noisy@.len() == 0
    &&& c.notifications.senders.silent@.len() == 0
    &&& c.notifications.senders.off@.len() == 0
    &&& c.behavior.show_message_body
    &&& c.behavior.max_body_length == 300
    &&& c.behavior.max_event_age_secs == 60
    &&& !c.behavior.quiet_hours.enabled
    &&& c.behavior.quiet_hours.start@ == "23:00"@
    &&& c.behavior.quiet_hours.end@ == "07:00"@
    &&& c.behavior.quiet_hours.timezone@ == "local"@
}

/// Without a file the documented configuration holds, with the sound of the platform.
pub proof fn built_in_configuration(platform: Platform, r: Config)
    requires
        call_ensures(Config::for_platform, (platform,), r),
    ensures
        built_in(r, platform),
{
    let n = r.notifications;
    assert(texts(n.dms.keywords@).len() == n.dms.keywords@.len());
    assert(texts(n.rooms.defaults.keywords@).len() == n.rooms.defaults.keywords@.len());
    assert(texts(n.senders.noisy@).len() == n.senders.noisy@.len());
    assert(texts(n.senders.silent@).len() == n.senders.silent@.len());
    assert(texts(n.senders.off@).len() == n.senders.off@.len());
    assert forall|key: Seq<char>| !#[trigger] n.rooms.overrides@.contains_key(key) by {
        assert(n@.rooms.overrides.contains_key(key) == n.rooms.overrides@.contains_key(key));
    }
}

/// Loading gives what the file gives, or what is built in where there is no file, which is nothing
/// to warn of.
pub proof fn loading_takes_the_file_or_what_is_built_in(
    file: Option<RawConfig>,
    platform: Platform,
    r: (Config, Vec<ConfigWarning>),
    from_file: (Config, Vec<ConfigWarning>),
)
    requires
        call_ensures(Config::load, (file, platform), r),
        file matches Some(raw) ==> call_ensures(Config::from_raw, (raw,), from_file),
    ensures
        file is Some ==> r.0@ == from_file.0@ && warning_views(r.1@) == warning_views(
            from_file.1@,
        ),
        file is None ==> built_in(r.0, platform) && r.1@.len() == 0,
{
    if file is None {
        let n = r.0.notifications;
        assert(texts(n.dms.keywords@).len() == n.dms.keywords@.len());
        assert(texts(n.rooms.defaults.keywords@).len() == n.rooms.defaults.keywords@.len());
        assert(texts(n.senders.noisy@).len() == n.senders.noisy@.len());
        assert(texts(n.senders.silent@).len() == n.senders.silent@.len());
        assert(texts(n.senders.off@).len() == n.senders.off@.len());
        assert forall|key: Seq<char>| !#[trigger] n.rooms.overrides@.contains_key(key) by {
            assert(n@.rooms.overrides.contains_key(key) == n.rooms.overrides@.contains_key(key));
        }
    }
}

/// What an empty file says, where it leaves everything out, is what is built in.
pub proof fn empty_sections(platform: Platform, r: RawNotificationConfig)
    requires
        call_ensures(RawNotificationConfig::for_platform, (platform,), r),
    ensures
        r.enabled,
        platform == Platform::Macos ==> r.sound@ == "Blow"@,
        platform != Platform::Macos ==> r.sound@ == "message-new-instant"@,
        r.invites == NotifyLevel::Noisy,
        !r.dms.mute && r.dms.unencrypted is None && r.dms.encrypted is None
            && r.dms.mentions_you is None && r.dms.mentions_room is None
            && r.dms.keyword_match is None && r.dms.calls is None && r.dms.reactions is None
            && r.dms.edits is None && r.dms.noisy_debounce_seconds is None && r.dms.keywords is None,
        r.rooms.extras@.len() == 0,
        r.rooms.defaults is Some && room_defaults(r.rooms.defaults->0),
        r.senders.noisy@.len() == 0 && r.senders.silent@.len() == 0 && r.senders.off@.len() == 0,
{
    let c = r.rooms.defaults->0;
    assert(texts(c.keywords@).len() == c.keywords@.len());
    assert(texts(r.senders.noisy@).len() == r.senders.noisy@.len());
    assert(texts(r.senders.silent@).len() == r.senders.silent@.len());
    assert(texts(r.senders.off@).len() == r.senders.off@.len());
}

/// The sound where none is configured depends on the platform.
pub proof fn sounds_go_by_platform(platform: Platform, r: String)
    requires
        call_ensures(default_sound, (platform,), r),
    ensures
        platform == Platform::Macos ==> r@ == "Blow"@,
        platform != Platform::Macos ==> r@ == "message-new-instant"@,
{
}

/// A path on the command line goes before one in the environment, and either before the default,
/// for the configuration as for the data.
pub proof fn command_line_before_environment<P>(
    cli: Option<P>,
    environment: Option<P>,
    default: P,
    config: P,
    data: P,
)
    requires
        call_ensures(Config::resolve_config_path::<P>, (cli, environment, default), config),
        call_ensures(Config::resolve_data_dir::<P>, (cli, environment, default), data),
    ensures
        cli matches Some(p) ==> config == p && data == p,
        cli is None && environment is Some ==> config == environment->0 && data == environment->0,
        cli is None && environment is None ==> config == default && data == default,
{
}

/// A copy of settings says what they say.
pub proof fn copies_say_the_same(c: RoomConfig, copy: RoomConfig, o: RoomOverride, again: RoomOverride)
    requires
        call_ensures(RoomConfig::clone, (&c,), copy),
        call_ensures(RoomOverride::clone, (&o,), again),
    ensures
        same_settings(copy, c),
        again.mute == o.mute,
        again.unencrypted == o.unencrypted,
        again.encrypted == o.encrypted,
        again.mentions_you == o.mentions_you,
        again.mentions_room == o.mentions_room,
        again.keyword_match == o.keyword_match,
        again.calls == o.calls,
        again.reactions == o.reactions,
        again.edits == o.edits,
        again.noisy_debounce_seconds == o.noisy_debounce_seconds,
        again.keywords is Some == o.keywords is Some,
        o.keywords matches Some(k) ==> same_texts(again.keywords->0@, k@),
{
    equal_texts_are_the_same(copy.keywords@, c.keywords@);
    if o.keywords is Some && again.keywords is Some {
        equal_texts_are_the_same(again.keywords->0@, o.keywords->0@);
    }
}

/// Whether an override sets nothing.
pub open spec fn sets_nothing(o: RoomOverride) -> bool {
    &&& !o.mute
    &&& o.unencrypted is None
    &&& o.encrypted is None
    &&& o.mentions_you is None
    &&& o.mentions_room is None
    &&& o.keyword_match is None
    &&& o.calls is None
    &&& o.reactions is None
    &&& o.edits is None
    &&& o.noisy_debounce_seconds is None
    &&& o.keywords is None
}

/// What is left out of a configuration is what is built in: a level is off, edits replace, rooms have
/// the settings of rooms, an override sets nothing, and nobody is listed.
pub proof fn what_is_left_out_is_built_in(
    level: NotifyLevel,
    edits: EditMode,
    room: RoomConfig,
    o: RoomOverride,
    table: RawRoomsSection,
    rooms: RoomsSection,
    senders: SenderFilters,
)
    requires
        call_ensures(NotifyLevel::default, (), level),
        call_ensures(EditMode::default, (), edits),
        call_ensures(RoomConfig::default, (), room),
        call_ensures(RoomOverride::default, (), o),
        call_ensures(RawRoomsSection::default, (), table),
        call_ensures(RoomsSection::default, (), rooms),
        call_ensures(SenderFilters::default, (), senders),
    ensures
        level == NotifyLevel::Off,
        edits == EditMode::Replace,
        room_defaults(room),
        sets_nothing(o),
        table.extras@.len() == 0,
        table.defaults is Some && room_defaults(table.defaults->0),
        room_defaults(rooms.defaults),
        forall|key: Seq<char>| !#[trigger] rooms.overrides@.contains_key(key),
        senders.noisy@.len() == 0 && senders.silent@.len() == 0 && senders.off@.len() == 0,
{
    assert(texts(room.keywords@).len() == room.keywords@.len());
    assert(texts(table.defaults->0.keywords@).len() == table.defaults->0.keywords@.len());
    assert(texts(rooms.defaults.keywords@).len() == rooms.defaults.keywords@.len());
    assert(texts(senders.noisy@).len() == senders.noisy@.len());
    assert(texts(senders.silent@).len() == senders.silent@.len());
    assert(texts(senders.off@).len() == senders.off@.len());
    assert forall|key: Seq<char>| !#[trigger] rooms.overrides@.contains_key(key) by {
        assert(rooms@.overrides.contains_key(key) == rooms.overrides@.contains_key(key));
    }
}

/// The behavior that is built in shows bodies of up to three hundred characters of events of the last
/// minute, and has quiet hours for the night that are disabled.
pub proof fn built_in_behavior(b: BehaviorConfig, hours: QuietHoursConfig)
    requires
        call_ensures(BehaviorConfig::default, (), b),
        call_ensures(QuietHoursConfig::default, (), hours),
    ensures
        b.show_message_body,
        b.max_body_length == 300,
        b.max_event_age_secs == 60,
        !b.quiet_hours.enabled && !hours.enabled,
        b.quiet_hours.start@ == "23:00"@ && hours.start@ == "23:00"@,
        b.quiet_hours.end@ == "07:00"@ && hours.end@ == "07:00"@,
        b.quiet_hours.timezone@ == "local"@ && hours.timezone@ == "local"@,
{
}

/// The configuration that is built in without a platform is that of Linux, whole or in part, as is
/// the one of an empty file.
pub proof fn built_in_without_a_platform(
    c: Config,
    linux: Config,
    n: NotificationConfig,
    raw: RawConfig,
    section: RawNotificationConfig,
)
    requires
        call_ensures(Config::default, (), c),
        call_ensures(Config::for_platform, (Platform::Linux,), linux),
        call_ensures(NotificationConfig::default, (), n),
        call_ensures(RawConfig::default, (), raw),
        call_ensures(RawNotificationConfig::default, (), section),
    ensures
        c@ == linux@,
        n@ == linux.notifications@,
        raw.notifications.enabled && section.enabled,
        raw.notifications.sound@ == "message-new-instant"@ && section.sound@
            == "message-new-instant"@,
        raw.notifications.invites == NotifyLevel::Noisy && section.invites == NotifyLevel::Noisy,
        sets_nothing(raw.notifications.dms) && sets_nothing(section.dms),
        raw.notifications.rooms.extras@.len() == 0 && section.rooms.extras@.len() == 0,
        raw.notifications.rooms.defaults is Some && room_defaults(
            raw.notifications.rooms.defaults->0,
        ),
        section.rooms.defaults is Some && room_defaults(section.rooms.defaults->0),
        raw.behavior@ == linux.behavior@,
{
    let a = raw.notifications.rooms.defaults->0;
    let b = section.rooms.defaults->0;
    assert(texts(a.keywords@).len() == a.keywords@.len());
    assert(texts(b.keywords@).len() == b.keywords@.len());
}

/// A copy of a configuration is the configuration.
pub proof fn copies_are_the_configuration(
    c: Config,
    copy: Config,
    n: NotificationConfig,
    n_copy: NotificationConfig,
    rooms: RoomsSection,
    rooms_copy: RoomsSection,
    senders: SenderFilters,
    senders_copy: SenderFilters,
    b: BehaviorConfig,
    b_copy: BehaviorConfig,
)
    requires
        call_ensures(Config::clone, (&c,), copy),
        call_ensures(NotificationConfig::clone, (&n,), n_copy),
        call_ensures(RoomsSection::clone, (&rooms,), rooms_copy),
        call_ensures(SenderFilters::clone, (&senders,), senders_copy),
        call_ensures(BehaviorConfig::clone, (&b,), b_copy),
    ensures
        copy@ == c@,
        n_copy@ == n@,
        rooms_copy@ == rooms@,
        same_texts(senders_copy.noisy@, senders.noisy@),
        same_texts(senders_copy.silent@, senders.silent@),
        same_texts(senders_copy.off@, senders.off@),
        same_behavior(b_copy, b),
{
    assert(senders_copy@ == senders@);
    equal_texts_are_the_same(senders_copy.noisy@, senders.noisy@);
    equal_texts_are_the_same(senders_copy.silent@, senders.silent@);
    equal_texts_are_the_same(senders_copy.off@, senders.off@);
}

/// What a configuration says is what its parts say.
pub proof fn configurations_say_what_they_hold(c: Config)
    ensures
        c@.notifications.enabled == c.notifications.enabled,
        c@.notifications.sound == c.notifications.sound@,
        c@.notifications.invites == c.notifications.invites,
        c@.notifications.dms == c.notifications.dms@,
        c@.notifications.rooms.defaults == c.notifications.rooms.defaults@,
        forall|key: Seq<char>| #[trigger]
            c@.notifications.rooms.overrides.contains_key(key)
                == c.notifications.rooms.overrides@.contains_key(key),
        forall|key: Seq<char>| #[trigger]
            c@.notifications.rooms.overrides.contains_key(key)
                ==> c@.notifications.rooms.overrides[key] == c.notifications.rooms.overrides@[key]@,
        c@.notifications.senders.noisy == texts(c.notifications.senders.noisy@),
        c@.notifications.senders.silent == texts(c.notifications.senders.silent@),
        c@.notifications.senders.off == texts(c.notifications.senders.off@),
        c@.behavior.show_message_body == c.behavior.show_message_body,
        c@.behavior.max_body_length == c.behavior.max_body_length,
        c@.behavior.max_event_age_secs == c.behavior.max_event_age_secs,
        c@.behavior.quiet_hours.enabled == c.behavior.quiet_hours.enabled,
        c@.behavior.quiet_hours.start == c.behavior.quiet_hours.start@,
        c@.behavior.quiet_hours.end == c.behavior.quiet_hours.end@,
{
}

} // verus!
