//! Laws of single calls on what the daemon remembers: what comes back and what is remembered
//! afterwards, said of what was remembered before.
use vstd::prelude::*;

use crate::ids::UserId;
use crate::state::{
    covered, first_where, lemma_first_where, pruning_drops_a_front, tags_of, uncovered, DaemonState,
    DaemonStateView, NotifEntryView,
};
use crate::text::texts;

verus! {

/// The notifications that are remembered for a room, oldest first.
pub open spec fn kept(state: DaemonStateView, room_id: Seq<char>) -> Seq<NotifEntryView> {
    if state.history.contains_key(room_id) {
        state.history[room_id]
    } else {
        Seq::empty()
    }
}

/// Whether two states differ in what is remembered of a room's notifications at most.
pub open spec fn same_but_for_room(a: DaemonStateView, b: DaemonStateView, room_id: Seq<char>) -> bool {
    &&& same_but_for_history(a, b)
    &&& a.latest == b.latest
    &&& other_rooms_stay(a, b, room_id)
}

/// Whether two states remember the same notifications of every other room.
pub open spec fn other_rooms_stay(a: DaemonStateView, b: DaemonStateView, room_id: Seq<char>) -> bool {
    forall|r: Seq<char>|
        r != room_id ==> (#[trigger] a.history.contains_key(r)) == b.history.contains_key(r) && (
        a.history.contains_key(r) ==> a.history[r] == b.history[r])
}

/// Whether two states differ in the remembered notifications and the latest reading at most.
pub open spec fn same_but_for_history(a: DaemonStateView, b: DaemonStateView) -> bool {
    &&& a.own_user_id == b.own_user_id
    &&& a.display_name == b.display_name
    &&& a.initial_sync_done == b.initial_sync_done
    &&& a.seen == b.seen
    &&& a.last_notif == b.last_notif
}

/// Whether an entry is older than seven days, on a clock that counts nanoseconds.
pub open spec fn over_a_week_old(e: NotifEntryView, now: int) -> bool {
    now - e.sent_at > 604_800_000_000_000
}

/// Whether `at` is the number of entries at the front that are over a week old.
pub open spec fn stale_front(entries: Seq<NotifEntryView>, now: int, at: int) -> bool {
    &&& 0 <= at <= entries.len()
    &&& forall|i: int| 0 <= i < at ==> over_a_week_old(#[trigger] entries[i], now)
    &&& at < entries.len() ==> !over_a_week_old(entries[at], now)
}

/// Whether remembering a notification had its effect: it comes last in its room; those at the front
/// that are over a week old are gone, and one more where there would be over a hundred; all else is
/// as it was.
pub open spec fn remembered(
    before: DaemonStateView,
    after: DaemonStateView,
    room_id: Seq<char>,
    tag: Seq<char>,
    event_id: Seq<char>,
    event_ts: int,
    now: int,
) -> bool {
    let old_entries = kept(before, room_id);
    let entry = NotifEntryView { sent_at: now, tag, event_id, event_ts };
    &&& exists|at: int| #[trigger]
        stale_front(old_entries, now, at) && kept(after, room_id) == if old_entries.len() - at
            >= 100 {
            old_entries.skip(at + 1).push(entry)
        } else {
            old_entries.skip(at).push(entry)
        }
    &&& same_but_for_history(before, after)
    &&& other_rooms_stay(before, after, room_id)
    &&& after.latest == now
}

/// What recording does in the model is to remember a notification.
pub proof fn recording_remembers(
    state: DaemonStateView,
    room_id: Seq<char>,
    tag: Seq<char>,
    event_id: Seq<char>,
    event_ts: int,
    now: int,
)
    ensures
        remembered(
            state,
            state.recorded(room_id, tag, event_id, event_ts, now),
            room_id,
            tag,
            event_id,
            event_ts,
            now,
        ),
{
    let old_entries = kept(state, room_id);
    let entry = NotifEntryView { sent_at: now, tag, event_id, event_ts };
    let at = pruning_drops_a_front(old_entries, now);
    assert(stale_front(old_entries, now, at));
    let after = state.recorded(room_id, tag, event_id, event_ts, now);
    let grown = old_entries.skip(at).push(entry);
    if old_entries.len() - at >= 100 {
        assert(grown.skip(1) =~= old_entries.skip(at + 1).push(entry));
        assert(kept(after, room_id) == old_entries.skip(at + 1).push(entry));
    } else {
        assert(kept(after, room_id) == grown);
    }
}

/// A posted notification is remembered as it was posted.
pub proof fn recorded_notifications_are_remembered(
    state: &mut DaemonState,
    room_id: &str,
    tag: String,
    event_id: String,
    event_ts: i64,
    now: u128,
)
    requires
        call_ensures(
            DaemonState::record_notif_at,
            (state, room_id, tag, event_id, event_ts, now),
            (),
        ),
    ensures
        remembered(
            old(state)@,
            final(state)@,
            room_id@,
            tag@,
            event_id@,
            event_ts as int,
            now as int,
        ),
{
    recording_remembers(
        old(state)@,
        room_id@,
        tag@,
        event_id@,
        event_ts as int,
        now as int,
    );
}

/// A notification that was just posted is remembered with a reading that is no earlier than any
/// before.
pub proof fn fresh_notifications_are_remembered(
    state: &mut DaemonState,
    room_id: &str,
    tag: String,
    event_id: String,
    event_ts: i64,
)
    requires
        call_ensures(DaemonState::record_notif, (state, room_id, tag, event_id, event_ts), ()),
    ensures
        exists|now: int|
            now >= old(state)@.latest && #[trigger] remembered(
                old(state)@,
                final(state)@,
                room_id@,
                tag@,
                event_id@,
                event_ts as int,
                now,
            ),
{
    let now = choose|now: int|
        now >= old(state)@.latest && final(state)@ == #[trigger] old(state)@.recorded(
            room_id@,
            tag@,
            event_id@,
            event_ts as int,
            now,
        );
    recording_remembers(old(state)@, room_id@, tag@, event_id@, event_ts as int, now);
}

/// Whether the first entry for the event stands at `at`, or none does and `at` is their number.
pub open spec fn first_for_event(entries: Seq<NotifEntryView>, event_id: Seq<char>, at: int) -> bool {
    &&& 0 <= at <= entries.len()
    &&& at < entries.len() ==> entries[at].event_id == event_id
    &&& forall|j: int| 0 <= j < at ==> (#[trigger] entries[j]).event_id != event_id
}

/// Whether the first entry with the tag stands at `at`, or none does and `at` is their number.
pub open spec fn first_with_tag(entries: Seq<NotifEntryView>, tag: Seq<char>, at: int) -> bool {
    &&& 0 <= at <= entries.len()
    &&& at < entries.len() ==> entries[at].tag == tag
    &&& forall|j: int| 0 <= j < at ==> (#[trigger] entries[j]).tag != tag
}

/// There is but one first entry.
proof fn first_entries_are_unique(entries: Seq<NotifEntryView>, text: Seq<char>, at: int)
    ensures
        first_for_event(entries, text, at) ==> first_where(
            entries,
            |e: NotifEntryView| e.event_id == text,
        ) == at,
        first_with_tag(entries, text, at) ==> first_where(entries, |e: NotifEntryView| e.tag == text)
            == at,
{
    if first_for_event(entries, text, at) {
        lemma_first_where(entries, |e: NotifEntryView| e.event_id == text, at);
    }
    if first_with_tag(entries, text, at) {
        lemma_first_where(entries, |e: NotifEntryView| e.tag == text, at);
    }
}

/// An event is looked up by the first notification that is remembered for it in its room, and what
/// is looked up is that notification's tag.
pub proof fn events_are_looked_up(
    state: DaemonState,
    room_id: &str,
    event_id: &str,
    at: int,
    r: Option<String>,
)
    requires
        call_ensures(DaemonState::lookup_tag, (&state, room_id, event_id), r),
        first_for_event(kept(state@, room_id@), event_id@, at),
    ensures
        (r is Some) == (at < kept(state@, room_id@).len()),
        r matches Some(tag) ==> tag@ == kept(state@, room_id@)[at].tag,
{
    first_entries_are_unique(kept(state@, room_id@), event_id@, at);
}

/// Whether the entry at `at` of a room was taken out, and nothing else: a room that has none left is
/// not kept.
pub open spec fn taken_out(
    before: DaemonStateView,
    after: DaemonStateView,
    room_id: Seq<char>,
    at: int,
) -> bool {
    &&& same_but_for_room(before, after, room_id)
    &&& at < kept(before, room_id).len() ==> kept(after, room_id) == kept(before, room_id).remove(at)
    &&& at >= kept(before, room_id).len() ==> after == before
    &&& at < kept(before, room_id).len() ==> after.history.contains_key(room_id) == (kept(
        before,
        room_id,
    ).len() > 1)
}

/// Removing by position in the model takes out that entry.
pub proof fn removal_takes_out(state: DaemonStateView, room_id: Seq<char>, at: int)
    requires
        0 <= at,
    ensures
        taken_out(state, state.without(room_id, at), room_id, at),
{
    let entries = kept(state, room_id);
    let after = state.without(room_id, at);
    if at < entries.len() {
        assert(kept(after, room_id) =~= entries.remove(at));
    }
}

/// What is removed by its event is the first notification for it, whose tag comes back; all others
/// stay as they were.
pub proof fn events_are_removed(
    state: &mut DaemonState,
    room_id: &str,
    event_id: &str,
    at: int,
    r: Option<String>,
)
    requires
        call_ensures(DaemonState::remove_by_event_id, (state, room_id, event_id), r),
        first_for_event(kept(old(state)@, room_id@), event_id@, at),
    ensures
        taken_out(old(state)@, final(state)@, room_id@, at),
        (r is Some) == (at < kept(old(state)@, room_id@).len()),
        r matches Some(tag) ==> tag@ == kept(old(state)@, room_id@)[at].tag,
{
    first_entries_are_unique(kept(old(state)@, room_id@), event_id@, at);
    removal_takes_out(old(state)@, room_id@, at);
}

/// What is removed by its tag is the first notification with it; all others stay as they were.
pub proof fn tags_are_removed(
    state: &mut DaemonState,
    room_id: &str,
    tag: &str,
    at: int,
    r: bool,
)
    requires
        call_ensures(DaemonState::remove_by_tag, (state, room_id, tag), r),
        first_with_tag(kept(old(state)@, room_id@), tag@, at),
    ensures
        taken_out(old(state)@, final(state)@, room_id@, at),
        r == (at < kept(old(state)@, room_id@).len()),
{
    first_entries_are_unique(kept(old(state)@, room_id@), tag@, at);
    removal_takes_out(old(state)@, room_id@, at);
}

/// Whether the strings are the tags of the entries, in their order.
pub open spec fn are_tags(tags: Seq<String>, entries: Seq<NotifEntryView>) -> bool {
    tags.len() == entries.len() && forall|i: int|
        0 <= i < tags.len() ==> (#[trigger] tags[i])@ == entries[i].tag
}

/// The strings of a list of tags are those tags.
proof fn texts_are_tags(tags: Seq<String>, entries: Seq<NotifEntryView>)
    requires
        texts(tags) == tags_of(entries),
    ensures
        are_tags(tags, entries),
{
    assert(texts(tags).len() == tags.len());
    assert forall|i: int| 0 <= i < tags.len() implies (#[trigger] tags[i])@ == entries[i].tag by {
        assert(texts(tags)[i] == tags_of(entries)[i]);
    }
}

/// Draining a room gives the tags of all its notifications, oldest first, and forgets them; no other
/// room is touched.
pub proof fn rooms_are_drained(state: &mut DaemonState, room_id: &str, r: Vec<String>)
    requires
        call_ensures(DaemonState::drain_room_tags, (state, room_id), r),
    ensures
        are_tags(r@, kept(old(state)@, room_id@)),
        !final(state)@.history.contains_key(room_id@),
        same_but_for_room(old(state)@, final(state)@, room_id@),
{
    texts_are_tags(r@, kept(old(state)@, room_id@));
}

/// Whether a receipt for `cutoff` had its effect on what is remembered: of its room those for later
/// events stay, in their order, and no other room is touched.
pub open spec fn read_up_to(
    before: DaemonStateView,
    after: DaemonStateView,
    room_id: Seq<char>,
    cutoff: int,
) -> bool {
    &&& kept(after, room_id) == kept(before, room_id).filter(
        |e: NotifEntryView| e.event_ts > cutoff,
    )
    &&& same_but_for_room(before, after, room_id)
}

/// Draining up to a time in the model leaves what is for later events.
pub proof fn draining_reads_up_to(state: DaemonStateView, room_id: Seq<char>, cutoff: int)
    ensures
        read_up_to(state, state.drained_up_to(room_id, cutoff), room_id, cutoff),
        covered(kept(state, room_id), cutoff) == kept(state, room_id).filter(
            |e: NotifEntryView| e.event_ts <= cutoff,
        ),
{
    let later = |e: NotifEntryView| e.event_ts > cutoff;
    let stay = |e: NotifEntryView| !(e.event_ts <= cutoff);
    assert(later =~= stay);
    let entries = kept(state, room_id);
    let after = state.drained_up_to(room_id, cutoff);
    if state.history.contains_key(room_id) {
        if uncovered(entries, cutoff).len() == 0 {
            assert(kept(after, room_id) =~= entries.filter(later));
        }
    } else {
        reveal(Seq::filter);
        assert(kept(after, room_id) =~= entries.filter(later));
    }
}

/// Draining a room up to a time gives the tags of the notifications for events up to it, oldest
/// first, and forgets those; later ones stay, and no other room is touched.
pub proof fn rooms_are_drained_up_to_a_time(
    state: &mut DaemonState,
    room_id: &str,
    cutoff: i64,
    r: Vec<String>,
)
    requires
        call_ensures(DaemonState::drain_room_tags_up_to, (state, room_id, cutoff), r),
    ensures
        are_tags(
            r@,
            kept(old(state)@, room_id@).filter(|e: NotifEntryView| e.event_ts <= cutoff),
        ),
        read_up_to(old(state)@, final(state)@, room_id@, cutoff as int),
{
    draining_reads_up_to(old(state)@, room_id@, cutoff as int);
    let go = |e: NotifEntryView| e.event_ts <= cutoff;
    let covers = |e: NotifEntryView| e.event_ts <= cutoff as int;
    assert(go =~= covers);
    texts_are_tags(r@, covered(kept(old(state)@, room_id@), cutoff as int));
}

/// Whether a cleanup had its effect: of every room those at the front that are over a week old are
/// gone, and a room that has none left is not kept; all else is as it was.
pub open spec fn cleaned(before: DaemonStateView, after: DaemonStateView, now: int) -> bool {
    &&& forall|room_id: Seq<char>, at: int| #[trigger]
        stale_front(kept(before, room_id), now, at) ==> kept(after, room_id) == kept(
            before,
            room_id,
        ).skip(at)
    &&& forall|room_id: Seq<char>| #[trigger]
        after.history.contains_key(room_id) ==> after.history[room_id].len() > 0
    &&& same_but_for_history(before, after)
    &&& after.latest == now
}

/// Cleaning up in the model drops what is over a week old.
proof fn cleanup_cleans(state: DaemonStateView, now: int)
    ensures
        cleaned(state, state.cleaned_up(now), now),
{
    let after = state.cleaned_up(now);
    assert forall|room_id: Seq<char>, at: int| #[trigger]
        stale_front(kept(state, room_id), now, at) implies kept(after, room_id) == kept(
        state,
        room_id,
    ).skip(at) by {
        let entries = kept(state, room_id);
        let k = pruning_drops_a_front(entries, now);
        if k < at {
            assert(over_a_week_old(entries[k], now));
        }
        if at < k {
            assert(!over_a_week_old(entries[at], now));
        }
        assert(kept(after, room_id) =~= entries.skip(at));
    }
}

/// A cleanup forgets what is over a week old.
pub proof fn cleanups_forget_what_is_old(state: &mut DaemonState, now: u128)
    requires
        call_ensures(DaemonState::cleanup_expired_notifs_at, (state, now), ()),
    ensures
        cleaned(old(state)@, final(state)@, now as int),
{
    cleanup_cleans(old(state)@, now as int);
}

/// A cleanup right now does so, too, with a reading that is no earlier than any before.
pub proof fn fresh_cleanups_forget_what_is_old(state: &mut DaemonState)
    requires
        call_ensures(DaemonState::cleanup_expired_notifs, (state,), ()),
    ensures
        exists|now: int|
            now >= old(state)@.latest && #[trigger] cleaned(old(state)@, final(state)@, now),
{
    let now = choose|now: int|
        now >= old(state)@.latest && final(state)@ == #[trigger] old(state)@.cleaned_up(now);
    cleanup_cleans(old(state)@, now);
}

/// Whether less than the seconds have passed since the last notification in the room.
pub open spec fn too_soon(state: DaemonStateView, room_id: Seq<char>, seconds: int, now: int) -> bool {
    &&& seconds > 0
    &&& state.last_notif.contains_key(room_id)
    &&& now - state.last_notif[room_id] < seconds * 1_000_000_000
}

/// Whether the last notification in the room is noted as of `now`, and nothing else changed.
pub open spec fn noted(
    before: DaemonStateView,
    after: DaemonStateView,
    room_id: Seq<char>,
    now: int,
) -> bool {
    &&& after.last_notif == before.last_notif.insert(room_id, now)
    &&& after.latest == now
    &&& after.own_user_id == before.own_user_id
    &&& after.display_name == before.display_name
    &&& after.initial_sync_done == before.initial_sync_done
    &&& after.seen == before.seen
    &&& after.history == before.history
}

/// The model's window is the one in which a notification comes too soon.
pub proof fn debounced_is_too_soon(
    state: DaemonStateView,
    room_id: Seq<char>,
    seconds: int,
    now: int,
)
    requires
        seconds >= 0,
    ensures
        state.debounced(room_id, seconds, now) == too_soon(state, room_id, seconds, now),
{
    assert(seconds > 0 ==> seconds * 1_000_000_000 > 0);
}

/// A notification is within the debounce window where the last one of its room is less than that
/// many seconds past.
pub proof fn debounce_windows_are_by_room(
    state: DaemonState,
    room_id: &str,
    seconds: u64,
    now: u128,
    r: bool,
)
    requires
        call_ensures(DaemonState::is_within_debounce_at, (&state, room_id, seconds, now), r),
    ensures
        r == too_soon(state@, room_id@, seconds as int, now as int),
{
    debounced_is_too_soon(state@, room_id@, seconds as int, now as int);
}

/// Right now it is so, too, for a reading that is no earlier than any before.
pub proof fn fresh_debounce_windows_are_by_room(
    state: DaemonState,
    room_id: &str,
    seconds: u64,
    r: bool,
)
    requires
        call_ensures(DaemonState::is_within_debounce, (&state, room_id, seconds), r),
    ensures
        exists|now: int|
            now >= state@.latest && r == #[trigger] too_soon(
                state@,
                room_id@,
                seconds as int,
                now,
            ),
{
    let now = choose|now: int|
        now >= state@.latest && r == #[trigger] state@.debounced(room_id@, seconds as int, now);
    debounced_is_too_soon(state@, room_id@, seconds as int, now);
}

/// Noting a notification notes its moment for its room.
pub proof fn notifications_are_noted(state: &mut DaemonState, room_id: &str, now: u128)
    requires
        call_ensures(DaemonState::mark_notification_at, (state, room_id, now), ()),
    ensures
        noted(old(state)@, final(state)@, room_id@, now as int),
{
}

/// Noting a notification right now does so, too, with a reading no earlier than any before.
pub proof fn fresh_notifications_are_noted(state: &mut DaemonState, room_id: &str)
    requires
        call_ensures(DaemonState::mark_notification, (state, room_id), ()),
    ensures
        exists|now: int|
            now >= old(state)@.latest && #[trigger] noted(
                old(state)@,
                final(state)@,
                room_id@,
                now,
            ),
{
    let now = choose|now: int|
        now >= old(state)@.latest && final(state)@ == #[trigger] old(state)@.notified(room_id@, now);
    assert(noted(old(state)@, final(state)@, room_id@, now));
}

/// A notification that is to sound does, unless it comes too soon after the last one of its room and
/// may not bypass the window; a silent one stays silent. Either way it is noted as the last.
pub proof fn sounds_are_debounced(
    state: &mut DaemonState,
    room_id: &str,
    seconds: u64,
    bypass: bool,
    play_sound: bool,
    now: u128,
    r: bool,
)
    requires
        call_ensures(
            DaemonState::apply_debounce_at,
            (state, room_id, seconds, bypass, play_sound, now),
            r,
        ),
    ensures
        r == (play_sound && (bypass || !too_soon(
            old(state)@,
            room_id@,
            seconds as int,
            now as int,
        ))),
        noted(old(state)@, final(state)@, room_id@, now as int),
{
    debounced_is_too_soon(old(state)@, room_id@, seconds as int, now as int);
}

/// Right now it is so, too, for a reading that is no earlier than any before.
pub proof fn fresh_sounds_are_debounced(
    state: &mut DaemonState,
    room_id: &str,
    seconds: u64,
    bypass: bool,
    play_sound: bool,
    r: bool,
)
    requires
        call_ensures(
            DaemonState::apply_debounce,
            (state, room_id, seconds, bypass, play_sound),
            r,
        ),
    ensures
        exists|now: int|
            now >= old(state)@.latest && #[trigger] noted(
                old(state)@,
                final(state)@,
                room_id@,
                now,
            ) && r == (play_sound && (bypass || !too_soon(
                old(state)@,
                room_id@,
                seconds as int,
                now,
            ))),
{
    let now = choose|now: int|
        now >= old(state)@.latest && final(state)@ == #[trigger] old(state)@.notified(room_id@, now)
            && r == old(state)@.sound_after_debounce(
            room_id@,
            seconds as int,
            bypass,
            play_sound,
            now,
        );
    debounced_is_too_soon(old(state)@, room_id@, seconds as int, now);
    assert(noted(old(state)@, final(state)@, room_id@, now));
}

/// Whether an event is marked as seen, and nothing else changed: where over ten thousand would be
/// remembered, it is the only one that is.
pub open spec fn marked(before: DaemonStateView, after: DaemonStateView, event_id: Seq<char>) -> bool {
    &&& before.seen.insert(event_id).len() <= 10_000 ==> after.seen == before.seen.insert(event_id)
    &&& before.seen.insert(event_id).len() > 10_000 ==> after.seen == set![event_id]
    &&& after.own_user_id == before.own_user_id
    &&& after.display_name == before.display_name
    &&& after.initial_sync_done == before.initial_sync_done
    &&& after.last_notif == before.last_notif
    &&& after.history == before.history
    &&& after.latest == before.latest
}

/// An event is new where it is not remembered as seen, and is remembered as seen from then on.
pub proof fn events_are_marked(state: &mut DaemonState, event_id: &str, r: bool)
    requires
        call_ensures(DaemonState::dedup, (state, event_id), r),
    ensures
        r == !old(state)@.seen.contains(event_id@),
        final(state)@.seen.contains(event_id@),
        marked(old(state)@, final(state)@, event_id@),
{
}

/// A daemon begins with nothing but its user.
pub proof fn daemons_begin_with_nothing(own_user_id: UserId, r: DaemonState)
    requires
        call_ensures(DaemonState::new, (own_user_id,), r),
    ensures
        r@.own_user_id == own_user_id@,
        r@.display_name is None,
        !r@.initial_sync_done,
        r@.latest == 0,
        forall|e: Seq<char>| !#[trigger] r@.seen.contains(e),
        forall|room: Seq<char>| !#[trigger] r@.last_notif.contains_key(room),
        forall|room: Seq<char>| !#[trigger] r@.history.contains_key(room),
{
}

/// What is set is what is read, and nothing else changes.
pub proof fn names_and_sync_are_set(
    named: &mut DaemonState,
    name: String,
    synced: &mut DaemonState,
)
    requires
        call_ensures(DaemonState::set_display_name, (named, name), ()),
        call_ensures(DaemonState::set_initial_sync_done, (synced,), ()),
    ensures
        final(named)@ == (DaemonStateView { display_name: Some(name@), ..old(named)@ }),
        final(synced)@ == (DaemonStateView { initial_sync_done: true, ..old(synced)@ }),
{
}

/// What is read is what is remembered.
pub proof fn memories_are_read(
    state: DaemonState,
    own: &UserId,
    name: Option<&str>,
    synced: bool,
    room_id: &str,
    remembers: bool,
)
    requires
        call_ensures(DaemonState::own_user_id, (&state,), own),
        call_ensures(DaemonState::display_name, (&state,), name),
        call_ensures(DaemonState::is_initial_sync_done, (&state,), synced),
        call_ensures(DaemonState::remembers_room, (&state, room_id), remembers),
    ensures
        own@ == state@.own_user_id,
        (name is Some) == (state@.display_name is Some),
        name matches Some(n) ==> state@.display_name == Some(n@),
        synced == state@.initial_sync_done,
        remembers == state@.history.contains_key(room_id@),
{
}

} // verus!
