//! Laws of levels, overrides, the rooms table and user ids.
use vstd::prelude::*;

use crate::config::{
    overrides_of, rooms_key, rooms_warnings, sound_of, BehaviorConfigView, ConfigView, EditMode,
    NotificationConfigView, NotifyLevel, Platform, RawConfig, RawRoomsEntry, RoomConfigView,
    RoomOverrideView, RoomsSectionView, SenderFiltersView,
};
use crate::ids::{first_colon, first_colon_is_unique, has_localpart, localpart_of};

verus! {

/// The loudest of levels depends neither on their order nor on their grouping, is one of them,
/// and has their greatest volume; off counts for nothing.
pub proof fn loudest_is_a_maximum(a: NotifyLevel, b: NotifyLevel, c: NotifyLevel)
    ensures
        a.louder(b) == b.louder(a),
        a.louder(b).louder(c) == a.louder(b.louder(c)),
        a.louder(a) == a,
        a.louder(NotifyLevel::Off) == a,
        a.louder(b) == a || a.louder(b) == b,
        a.louder(b).volume() >= a.volume(),
        a.louder(b).volume() >= b.volume(),
{
}

/// An override that sets nothing changes nothing.
pub proof fn empty_override_changes_nothing(base: RoomConfigView)
    ensures
        RoomOverrideView::nothing().applied_to(base) == base,
{
}

/// Applying an override twice is applying it once.
pub proof fn override_is_idempotent(o: RoomOverrideView, base: RoomConfigView)
    ensures
        o.applied_to(o.applied_to(base)) == o.applied_to(base),
{
}

/// A muted room is off in every respect, whatever else its override or its defaults say.
pub proof fn mute_turns_everything_off(o: RoomOverrideView, base: RoomConfigView)
    requires
        o.mute,
    ensures
        ({
            let room = o.applied_to(base);
            &&& room.unencrypted == NotifyLevel::Off
            &&& room.encrypted == NotifyLevel::Off
            &&& room.mentions_you == NotifyLevel::Off
            &&& room.mentions_room == NotifyLevel::Off
            &&& room.keyword_match == NotifyLevel::Off
            &&& room.calls == NotifyLevel::Off
            &&& room.reactions == NotifyLevel::Off
            &&& room.edits == EditMode::Off
        }),
{
}

/// Where an override does not mute, each setting is the override's where it has one, and the
/// default otherwise.
pub proof fn override_is_fieldwise(o: RoomOverrideView, base: RoomConfigView)
    requires
        !o.mute,
    ensures
        o.unencrypted is None ==> o.applied_to(base).unencrypted == base.unencrypted,
        o.encrypted is None ==> o.applied_to(base).encrypted == base.encrypted,
        o.mentions_you is None ==> o.applied_to(base).mentions_you == base.mentions_you,
        o.mentions_room is None ==> o.applied_to(base).mentions_room == base.mentions_room,
        o.keyword_match is None ==> o.applied_to(base).keyword_match == base.keyword_match,
        o.calls is None ==> o.applied_to(base).calls == base.calls,
        o.reactions is None ==> o.applied_to(base).reactions == base.reactions,
        o.edits is None ==> o.applied_to(base).edits == base.edits,
        o.noisy_debounce_seconds is None ==> o.applied_to(base).noisy_debounce_seconds
            == base.noisy_debounce_seconds,
        o.keywords is None ==> o.applied_to(base).keywords == base.keywords,
        o.unencrypted matches Some(l) ==> o.applied_to(base).unencrypted == l,
        o.encrypted matches Some(l) ==> o.applied_to(base).encrypted == l,
        o.mentions_you matches Some(l) ==> o.applied_to(base).mentions_you == l,
        o.mentions_room matches Some(l) ==> o.applied_to(base).mentions_room == l,
        o.keyword_match matches Some(l) ==> o.applied_to(base).keyword_match == l,
        o.calls matches Some(l) ==> o.applied_to(base).calls == l,
        o.reactions matches Some(l) ==> o.applied_to(base).reactions == l,
        o.edits matches Some(m) ==> o.applied_to(base).edits == m,
        o.noisy_debounce_seconds matches Some(n) ==> o.applied_to(base).noisy_debounce_seconds == n,
        o.keywords matches Some(k) ==> o.applied_to(base).keywords == k,
{
}

/// An override bears on its own room alone.
pub proof fn override_bears_on_its_room_alone(
    config: NotificationConfigView,
    overridden: Seq<char>,
    o: RoomOverrideView,
    room_id: Seq<char>,
    is_direct: bool,
)
    requires
        room_id != overridden,
    ensures
        (NotificationConfigView {
            rooms: RoomsSectionView {
                overrides: config.rooms.overrides.insert(overridden, o),
                ..config.rooms
            },
            ..config
        }).effective(room_id, is_direct) == config.effective(room_id, is_direct),
{
}

/// The overrides that a rooms table gives are for room ids alone: no setting and no unknown key
/// becomes an override.
pub proof fn overrides_are_for_rooms(extras: Seq<RawRoomsEntry>, key: Seq<char>)
    requires
        overrides_of(extras).contains_key(key),
    ensures
        rooms_key(key) is Override,
        exists|i: int|
            0 <= i < extras.len() && (#[trigger] extras[i]).key@ == key && extras[i].as_override is Some
                && overrides_of(extras)[key] == extras[i].as_override->0@,
    decreases extras.len(),
{
    let before = extras.drop_last();
    let e = extras.last();
    if e.as_override is Some && rooms_key(e.key@) is Override && e.key@ == key {
        assert(extras[extras.len() - 1].key@ == key);
    } else {
        overrides_are_for_rooms(before, key);
        let i = choose|i: int|
            0 <= i < before.len() && (#[trigger] before[i]).key@ == key && before[i].as_override is Some
                && overrides_of(before)[key] == before[i].as_override->0@;
        assert(extras[i] == before[i]);
    }
}

/// Every valid entry for a room id becomes an override of that room.
pub proof fn valid_rooms_get_their_override(extras: Seq<RawRoomsEntry>, i: int)
    requires
        0 <= i < extras.len(),
        rooms_key(extras[i].key@) is Override,
        extras[i].as_override is Some,
    ensures
        overrides_of(extras).contains_key(extras[i].key@),
    decreases extras.len(),
{
    if i < extras.len() - 1 {
        assert(extras.drop_last()[i] == extras[i]);
        valid_rooms_get_their_override(extras.drop_last(), i);
    }
}

/// A file that sets nothing configures what no file does.
pub proof fn empty_file_is_no_file(raw: RawConfig, platform: Platform)
    requires
        raw.notifications.enabled,
        raw.notifications.sound@ == sound_of(platform),
        raw.notifications.invites == NotifyLevel::Noisy,
        raw.notifications.dms@ == RoomOverrideView::nothing(),
        raw.notifications.rooms.extras@.len() == 0,
        raw.notifications.rooms.defaults is Some,
        raw.notifications.rooms.defaults->0@ == RoomConfigView::rooms(),
        raw.notifications.senders@ == SenderFiltersView::nobody(),
        raw.behavior@ == BehaviorConfigView::unconfigured(),
    ensures
        ConfigView::of_raw(raw) == ConfigView::unconfigured(platform),
        rooms_warnings(raw.notifications.rooms).len() == 0,
{
    empty_override_changes_nothing(RoomConfigView::dms());
}

/// What a file sets is what holds: valid settings of all rooms hold in every room that has no
/// override and is no direct chat, each setting of direct chats holds where it is set and is noisy
/// or replacing where it is not, and all else is taken over as it is.
pub proof fn files_set_what_holds(raw: RawConfig, room_id: Seq<char>)
    ensures
        ({
            let config = ConfigView::of_raw(raw);
            let defaults = raw.notifications.rooms.defaults;
            let dms = raw.notifications.dms;
            &&& defaults matches Some(c) ==> config.notifications.rooms.defaults == c@
            &&& defaults is Some && !config.notifications.rooms.overrides.contains_key(room_id)
                ==> config.notifications.effective(room_id, false) == defaults->0@
            &&& !config.notifications.rooms.overrides.contains_key(room_id)
                ==> config.notifications.effective(room_id, true) == config.notifications.dms
            &&& !dms.mute ==> {
                &&& dms.unencrypted matches Some(l) ==> config.notifications.dms.unencrypted == l
                &&& dms.unencrypted is None ==> config.notifications.dms.unencrypted
                    == NotifyLevel::Noisy
                &&& dms.encrypted matches Some(l) ==> config.notifications.dms.encrypted == l
                &&& dms.encrypted is None ==> config.notifications.dms.encrypted
                    == NotifyLevel::Noisy
                &&& dms.edits matches Some(m) ==> config.notifications.dms.edits == m
                &&& dms.edits is None ==> config.notifications.dms.edits == EditMode::Replace
            }
            &&& config.notifications.enabled == raw.notifications.enabled
            &&& config.notifications.sound == raw.notifications.sound@
            &&& config.notifications.invites == raw.notifications.invites
            &&& config.notifications.senders == raw.notifications.senders@
            &&& config.behavior == raw.behavior@
        }),
{
}

/// The localpart of a user id is what it was made of.
pub proof fn localpart_is_recovered(localpart: Seq<char>, server: Seq<char>)
    requires
        !localpart.contains(':'),
    ensures
        ({
            let id = seq!['@'] + localpart + seq![':'] + server;
            has_localpart(id) && localpart_of(id) == localpart
        }),
{
    let id = seq!['@'] + localpart + seq![':'] + server;
    let at = 1 + localpart.len() as int;
    assert(id[at] == ':');
    assert forall|i: int| 1 <= i < at implies id[i] != ':' by {
        assert(id[i] == localpart[i - 1]);
    }
    assert(first_colon(id, at));
    first_colon_is_unique(id, at, choose|at: int| first_colon(id, at));
    assert(id.subrange(1, at) =~= localpart);
}

} // verus!
