//! Laws of what the daemon remembers, announces and dismisses.
use vstd::prelude::*;

use crate::clock::LocalTime;
use crate::config::{ConfigView, NotificationConfigView, RoomConfigView, RoomsSectionView};
use crate::decide::{
    after_decision, call_action, invite_action, message_action, outgoing, reaction_action, settled,
    CallNotifView, InviteNotifView, MessageNotifView, NotifActionView, ReactionNotifView,
};
use crate::filters::{verdict, EventKind, FilterResult};
use crate::handlers::{accepts, after_event, after_receipt, receipt_tags, Receipt};
use crate::notification::popup_id;
use crate::state::{
    cleanup_keeps_bounds, covered, draining_keeps_bounds, entries_in, expired, first_where_is_first,
    in_order, lemma_first_where, new_entry_comes_last, pruned, pruning_drops_a_front,
    recording_keeps_bounds, removal_keeps_bounds, tags_of, uncovered, with_new_entry,
    DaemonStateView, NotifEntryView, NANOS_PER_SEC, NOTIF_HISTORY_CAP, SEEN_EVENTS_CAP,
};

verus! {

/// A notification that is remembered can be found by its event, unless the room has an earlier
/// one for the same event; it can be found by its tag in any case.
pub proof fn recorded_is_found(
    state: DaemonStateView,
    room_id: Seq<char>,
    tag: Seq<char>,
    event_id: Seq<char>,
    event_ts: int,
    now: int,
)
    ensures
        ({
            let after = state.recorded(room_id, tag, event_id, event_ts, now);
            &&& state.tag_for(room_id, event_id) is None ==> after.tag_for(room_id, event_id)
                == Some(tag)
            &&& after.tag_for(room_id, event_id) is Some
            &&& after.has_tag(room_id, tag)
        }),
{
    let after = state.recorded(room_id, tag, event_id, event_ts, now);
    let before = entries_in(state.history, room_id);
    let entry = NotifEntryView { sent_at: now, tag, event_id, event_ts };
    let k = new_entry_comes_last(before, entry, now);
    let entries = entries_in(after.history, room_id);
    assert(entries == before.skip(k).push(entry));
    let last = entries.len() - 1;
    assert(entries[last] == entry);
    let by_event = |e: NotifEntryView| e.event_id == event_id;
    let by_tag = |e: NotifEntryView| e.tag == tag;
    first_where_is_first(entries, by_tag);
    first_where_is_first(entries, by_event);
    assert(by_tag(entries[last]));
    assert(by_event(entries[last]));
    if state.tag_for(room_id, event_id) is None {
        first_where_is_first(before, by_event);
        assert forall|j: int| 0 <= j < last implies !by_event(#[trigger] entries[j]) by {
            assert(entries[j] == before[j + k]);
        }
        lemma_first_where(entries, by_event, last);
    }
}

/// What happens in one room leaves what is remembered of another untouched.
pub proof fn rooms_are_apart(
    state: DaemonStateView,
    room_id: Seq<char>,
    other: Seq<char>,
    tag: Seq<char>,
    event_id: Seq<char>,
    event_ts: int,
    at: int,
    now: int,
)
    requires
        room_id != other,
    ensures
        entries_in(state.recorded(room_id, tag, event_id, event_ts, now).history, other)
            == entries_in(state.history, other),
        entries_in(state.without(room_id, at).history, other) == entries_in(state.history, other),
        entries_in(state.drained(room_id).history, other) == entries_in(state.history, other),
        entries_in(state.drained_up_to(room_id, event_ts).history, other) == entries_in(
            state.history,
            other,
        ),
        state.notified(room_id, now).debounced(other, at, now) == state.debounced(other, at, now),
{
}

/// Where a room is at its limit and its oldest notification is not expired, a new one pushes out
/// that, and only that.
pub proof fn oldest_goes_first(
    entries: Seq<NotifEntryView>,
    entry: NotifEntryView,
    now: int,
)
    requires
        entries.len() == NOTIF_HISTORY_CAP,
        !expired(entries[0], now),
    ensures
        with_new_entry(entries, entry, now) == entries.skip(1).push(entry),
        with_new_entry(entries, entry, now).len() == NOTIF_HISTORY_CAP,
{
    assert(entries.push(entry).skip(1) =~= entries.skip(1).push(entry));
}

/// Filtering by what holds of all entries drops none.
proof fn filter_of_all(entries: Seq<NotifEntryView>, keep: spec_fn(NotifEntryView) -> bool)
    requires
        forall|i: int| 0 <= i < entries.len() ==> keep(#[trigger] entries[i]),
    ensures
        entries.filter(keep) == entries,
    decreases entries.len(),
{
    reveal(Seq::filter);
    if entries.len() > 0 {
        filter_of_all(entries.drop_last(), keep);
        assert(entries.drop_last().push(entries.last()) =~= entries);
    }
}

/// Filtering by what holds of no entry drops all.
proof fn filter_of_none(entries: Seq<NotifEntryView>, keep: spec_fn(NotifEntryView) -> bool)
    requires
        forall|i: int| 0 <= i < entries.len() ==> !keep(#[trigger] entries[i]),
    ensures
        entries.filter(keep).len() == 0,
    decreases entries.len(),
{
    reveal(Seq::filter);
    if entries.len() > 0 {
        filter_of_none(entries.drop_last(), keep);
    }
}

/// Of entries in order, pruning drops exactly the expired ones.
pub proof fn pruning_drops_the_expired(entries: Seq<NotifEntryView>, now: int)
    requires
        in_order(entries),
    ensures
        pruned(entries, now) == entries.filter(|e: NotifEntryView| !expired(e, now)),
{
    let keep = |e: NotifEntryView| !expired(e, now);
    let k = pruning_drops_a_front(entries, now);
    let front = entries.take(k);
    let rest = entries.skip(k);
    assert(front + rest =~= entries);
    Seq::filter_distributes_over_add(front, rest, keep);
    filter_of_none(front, keep);
    assert forall|i: int| 0 <= i < rest.len() implies keep(#[trigger] rest[i]) by {
        assert(entries[k].sent_at <= entries[k + i].sent_at);
    }
    filter_of_all(rest, keep);
    assert(front.filter(keep) + rest =~= rest);
}

/// Cleaning up leaves of every room exactly the notifications that are not expired.
pub proof fn cleanup_drops_the_expired(state: DaemonStateView, now: int, room_id: Seq<char>)
    requires
        state.within_bounds(),
    ensures
        entries_in(state.cleaned_up(now).history, room_id) == entries_in(
            state.history,
            room_id,
        ).filter(|e: NotifEntryView| !expired(e, now)),
{
    let keep = |e: NotifEntryView| !expired(e, now);
    let entries = entries_in(state.history, room_id);
    pruning_drops_the_expired(entries, now);
    if pruned(entries, now).len() == 0 {
        assert(entries.filter(keep) =~= Seq::<NotifEntryView>::empty());
    }
}

/// Cleaning up forgets nothing but expired notifications, and is done with once.
pub proof fn cleanup_is_idempotent(state: DaemonStateView, now: int)
    ensures
        state.cleaned_up(now).cleaned_up(now) == state.cleaned_up(now),
        forall|r: Seq<char>|
            state.history.contains_key(r) && state.history[r].len() > 0 && !expired(
                #[trigger] state.history[r].last(),
                now,
            ) ==> state.cleaned_up(now).history.contains_key(r),
{
    let once = state.cleaned_up(now);
    assert forall|r: Seq<char>| #[trigger] once.history.contains_key(r) implies pruned(
        once.history[r],
        now,
    ) == once.history[r] by {
        let k = pruning_drops_a_front(state.history[r], now);
        let kept = state.history[r].skip(k);
        assert(kept.len() > 0);
        assert(kept[0] == state.history[r][k]);
    }
    assert(once.cleaned_up(now).history =~= once.history);
    assert forall|r: Seq<char>|
        state.history.contains_key(r) && state.history[r].len() > 0 && !expired(
            #[trigger] state.history[r].last(),
            now,
        ) implies state.cleaned_up(now).history.contains_key(r) by {
        let entries = state.history[r];
        let k = pruning_drops_a_front(entries, now);
        if k == entries.len() {
            assert(expired(entries[entries.len() - 1], now));
        }
    }
}

/// A room that was drained has nothing more to drain.
pub proof fn draining_clears_the_room(state: DaemonStateView, room_id: Seq<char>, cutoff: int)
    ensures
        entries_in(state.drained(room_id).history, room_id).len() == 0,
        state.drained(room_id).drained(room_id) == state.drained(room_id),
        covered(entries_in(state.drained_up_to(room_id, cutoff).history, room_id), cutoff).len()
            == 0,
{
    let after = state.drained(room_id);
    assert(after.history.remove(room_id) =~= after.history);
    let keep = |e: NotifEntryView| !(e.event_ts <= cutoff);
    let go = |e: NotifEntryView| e.event_ts <= cutoff;
    let left = entries_in(state.drained_up_to(room_id, cutoff).history, room_id);
    if state.history.contains_key(room_id) && uncovered(state.history[room_id], cutoff).len() > 0 {
        let entries = state.history[room_id];
        assert forall|i: int| 0 <= i < left.len() implies !go(#[trigger] left[i]) by {
            entries.lemma_filter_pred(keep, i);
        }
    }
    filter_of_none(left, go);
}

/// A read receipt splits the notifications of a room: those for events up to its time go, the
/// others stay, and none is lost or made up.
pub proof fn receipt_splits_the_room(entries: Seq<NotifEntryView>, cutoff: int)
    ensures
        covered(entries, cutoff).len() + uncovered(entries, cutoff).len() == entries.len(),
        forall|i: int|
            0 <= i < covered(entries, cutoff).len() ==> (#[trigger] covered(entries, cutoff)[i]).event_ts
                <= cutoff,
        forall|i: int|
            0 <= i < uncovered(entries, cutoff).len() ==> (#[trigger] uncovered(
                entries,
                cutoff,
            )[i]).event_ts > cutoff,
        forall|i: int|
            0 <= i < entries.len() ==> if (#[trigger] entries[i]).event_ts <= cutoff {
                covered(entries, cutoff).contains(entries[i])
            } else {
                uncovered(entries, cutoff).contains(entries[i])
            },
    decreases entries.len(),
{
    let go = |e: NotifEntryView| e.event_ts <= cutoff;
    let keep = |e: NotifEntryView| !(e.event_ts <= cutoff);
    broadcast use vstd::seq_lib::group_filter_ensures;

    if entries.len() > 0 {
        receipt_splits_the_room(entries.drop_last(), cutoff);
    }
    reveal(Seq::filter);
    assert forall|i: int| 0 <= i < entries.len() implies if (#[trigger] entries[i]).event_ts
        <= cutoff {
        covered(entries, cutoff).contains(entries[i])
    } else {
        uncovered(entries, cutoff).contains(entries[i])
    } by {
        if entries[i].event_ts <= cutoff {
            assert(go(entries[i]));
            entries.lemma_filter_contains(go, i);
        } else {
            assert(keep(entries[i]));
            entries.lemma_filter_contains(keep, i);
        }
    }
    assert forall|i: int| 0 <= i < covered(entries, cutoff).len() implies (#[trigger] covered(
        entries,
        cutoff,
    )[i]).event_ts <= cutoff by {
        entries.lemma_filter_pred(go, i);
        assert(go(entries.filter(go)[i]));
    }
    assert forall|i: int| 0 <= i < uncovered(entries, cutoff).len() implies (#[trigger] uncovered(
        entries,
        cutoff,
    )[i]).event_ts > cutoff by {
        entries.lemma_filter_pred(keep, i);
        assert(keep(entries.filter(keep)[i]));
    }
}

/// Forgetting the notification of an event takes one entry away and leaves the others in their
/// order; where there was but one for the event, none is left.
pub proof fn removal_takes_one(
    state: DaemonStateView,
    room_id: Seq<char>,
    event_id: Seq<char>,
)
    requires
        state.tag_for(room_id, event_id) is Some,
    ensures
        ({
            let at = state.position_of_event(room_id, event_id);
            let before = entries_in(state.history, room_id);
            let after = state.without(room_id, at);
            &&& 0 <= at < before.len()
            &&& before[at].event_id == event_id
            &&& entries_in(after.history, room_id) == before.remove(at)
            &&& (forall|i: int, j: int|
                0 <= i < before.len() && 0 <= j < before.len() && (
                #[trigger] before[i]).event_id == event_id && (#[trigger] before[j]).event_id
                    == event_id ==> i == j) ==> after.tag_for(room_id, event_id) is None
        }),
{
    let wanted = |e: NotifEntryView| e.event_id == event_id;
    let before = entries_in(state.history, room_id);
    first_where_is_first(before, wanted);
    let at = state.position_of_event(room_id, event_id);
    let after = state.without(room_id, at);
    let left = entries_in(after.history, room_id);
    assert(left =~= before.remove(at));
    if forall|i: int, j: int|
        0 <= i < before.len() && 0 <= j < before.len() && (#[trigger] before[i]).event_id
            == event_id && (#[trigger] before[j]).event_id == event_id ==> i == j {
        assert forall|j: int| 0 <= j < left.len() implies !wanted(#[trigger] left[j]) by {
            let i = if j < at {
                j
            } else {
                j + 1
            };
            assert(left[j] == before[i]);
            assert(before[at].event_id == event_id);
        }
        lemma_first_where(left, wanted, left.len() as int);
    }
}

/// An event is new once: marked as seen it is so no longer. What else is new stays so, and what
/// else is not stays so, too, until so many are remembered that the others are forgotten.
pub proof fn events_are_new_once(state: DaemonStateView, event_id: Seq<char>, other: Seq<char>)
    ensures
        !state.marked_seen(event_id).is_new(event_id),
        other != event_id && state.is_new(other) ==> state.marked_seen(event_id).is_new(other),
        state.seen.insert(event_id).len() <= SEEN_EVENTS_CAP && !state.is_new(other)
            ==> !state.marked_seen(event_id).is_new(other),
{
}

/// Before the first sync is over, and of the user's own events, the daemon takes no notice.
pub proof fn silent_until_synced(
    state: DaemonStateView,
    sender: Seq<char>,
    event_id: Seq<char>,
)
    requires
        !state.initial_sync_done || sender == state.own_user_id,
    ensures
        !accepts(state, sender, event_id),
        after_event(state, sender, event_id) == state,
{
}

/// An event is taken notice of once: the next time, from whomever it comes, it is not.
pub proof fn events_are_accepted_once(
    state: DaemonStateView,
    sender: Seq<char>,
    event_id: Seq<char>,
    again: Seq<char>,
)
    requires
        accepts(state, sender, event_id),
    ensures
        !accepts(after_event(state, sender, event_id), again, event_id),
{
}

/// Debouncing silences a notification exactly where it follows the last one of the room within
/// the window; a window of no seconds silences none, nor does the first one of a room have
/// anything to follow.
pub proof fn debounce_window(
    state: DaemonStateView,
    room_id: Seq<char>,
    seconds: int,
    then: int,
    now: int,
)
    requires
        then <= now,
        seconds >= 0,
    ensures
        state.notified(room_id, then).debounced(room_id, seconds, now) == (now - then < seconds
            * NANOS_PER_SEC),
        !state.debounced(room_id, 0, now),
        !state.last_notif.contains_key(room_id) ==> !state.debounced(room_id, seconds, now),
{
    assert(seconds == 0 ==> seconds * NANOS_PER_SEC == 0);
}

/// Debouncing takes sound away and never adds it, and a listed sender keeps theirs.
pub proof fn debounce_only_silences(
    state: DaemonStateView,
    room_id: Seq<char>,
    seconds: int,
    bypass: bool,
    play_sound: bool,
    now: int,
)
    ensures
        state.sound_after_debounce(room_id, seconds, bypass, play_sound, now) ==> play_sound,
        state.sound_after_debounce(room_id, seconds, true, play_sound, now) == play_sound,
        state.sound_after_debounce(room_id, 0, bypass, play_sound, now) == play_sound,
{
}

/// What the filters suppress is not announced; what replaces an earlier notification makes no
/// sound and is not remembered; an edit is never remembered; and the only sound is the
/// configured one.
pub proof fn message_actions_are_consistent(
    n: MessageNotifView,
    state: DaemonStateView,
    config: ConfigView,
    now: LocalTime,
    clock: int,
)
    ensures
        ({
            let action = message_action(n, state, config, now, clock);
            &&& verdict(n.context(), config, now) == FilterResult::Suppress ==> action is Suppress
            &&& action matches NotifActionView::Send { sound, replace, track, body, .. } ==> {
                &&& replace ==> sound is None && track is None
                &&& n.kind == EventKind::Edit ==> track is None
                &&& n.kind != EventKind::Edit ==> track is Some && track->0.event_id == n.event_id
                &&& sound matches Some(s) ==> s == config.notifications.sound
                &&& body == n.body
            }
        }),
{
}

/// A notification for a message or for an edit that replaces one names the sender of a direct chat,
/// and the room with the sender below it elsewhere. So an edit that replaces a notification leaves
/// its title and subtitle as they were, where room and sender are called as before.
pub proof fn messages_are_titled_by_sender_or_room(
    n: MessageNotifView,
    state: DaemonStateView,
    config: ConfigView,
    now: LocalTime,
    clock: int,
)
    ensures
        message_action(n, state, config, now, clock) matches NotifActionView::Send {
            title,
            subtitle,
            replace,
            ..
        } ==> {
            &&& n.is_direct ==> subtitle is None
            &&& !n.is_direct ==> subtitle == Some(n.sender_name)
            &&& n.is_direct && (replace || n.kind != EventKind::Edit) ==> title == n.sender_name
            &&& !n.is_direct && (replace || n.kind != EventKind::Edit) ==> title == n.room_name
            &&& n.kind == EventKind::Edit && !replace ==> title == n.sender_name
                + " edited their message"@
        },
{
    crate::laws::filtering::only_edits_replace(n.context(), config, now);
}

/// The only sound of the other notifications is the configured one, too; they replace nothing,
/// and all but invitations are remembered by their own event.
pub proof fn other_actions_are_consistent(
    i: InviteNotifView,
    r: ReactionNotifView,
    c: CallNotifView,
    state: DaemonStateView,
    config: ConfigView,
    now: LocalTime,
    clock: int,
)
    ensures
        invite_action(i, config, now) matches NotifActionView::Send { sound, replace, track, .. }
            ==> !replace && track is None && (sound matches Some(s) ==> s
            == config.notifications.sound),
        reaction_action(r, state, config, now, clock) matches NotifActionView::Send {
            sound,
            replace,
            track,
            ..
        } ==> !replace && track is Some && track->0.event_id == r.reaction_event_id && (
        sound matches Some(s) ==> s == config.notifications.sound),
        call_action(c, config, now) matches NotifActionView::Send { sound, replace, track, .. }
            ==> !replace && track is Some && track->0.event_id == c.call_event_id && (
        sound matches Some(s) ==> s == config.notifications.sound),
{
}

/// A decision remembers no notification and forgets none: whatever is decided about a message or a
/// reaction, each event keeps its tag and each room its notifications, until one is posted.
pub proof fn decisions_leave_the_history_alone(
    n: MessageNotifView,
    r: ReactionNotifView,
    state: DaemonStateView,
    config: ConfigView,
    now: LocalTime,
    clock: int,
    room_id: Seq<char>,
    event_id: Seq<char>,
    tag: Seq<char>,
)
    ensures
        ({
            let action = message_action(n, state, config, now, clock);
            let after = after_decision(action, state, n.room_id, clock);
            &&& after.history == state.history
            &&& after.tag_for(room_id, event_id) == state.tag_for(room_id, event_id)
            &&& after.has_tag(room_id, tag) == state.has_tag(room_id, tag)
            &&& tags_of(entries_in(after.history, room_id)) == tags_of(
                entries_in(state.history, room_id),
            )
        }),
        ({
            let action = reaction_action(r, state, config, now, clock);
            let after = after_decision(action, state, r.room_id, clock);
            &&& after.history == state.history
            &&& after.tag_for(room_id, event_id) == state.tag_for(room_id, event_id)
            &&& after.has_tag(room_id, tag) == state.has_tag(room_id, tag)
            &&& tags_of(entries_in(after.history, room_id)) == tags_of(
                entries_in(state.history, room_id),
            )
        }),
{
}

/// An invitation is decided by nothing that is set for rooms or direct chats, and what it announces
/// has a fixed form: the tag names the room, the title its name and the subtitle the inviter; there
/// is no body, nothing is replaced and nothing is remembered.
pub proof fn invitations_ignore_room_settings(
    n: InviteNotifView,
    config: ConfigView,
    dms: RoomConfigView,
    rooms: RoomsSectionView,
    now: LocalTime,
)
    ensures
        invite_action(
            n,
            ConfigView {
                notifications: NotificationConfigView { dms, rooms, ..config.notifications },
                ..config
            },
            now,
        ) == invite_action(n, config, now),
        invite_action(n, config, now) matches NotifActionView::Send {
            tag,
            title,
            subtitle,
            body,
            sound,
            replace,
            track,
        } ==> {
            &&& tag == "invite:"@ + n.room_id
            &&& title == "invite to "@ + n.room_name
            &&& subtitle == Some("from "@ + n.sender_localpart)
            &&& body == ""@
            &&& sound matches Some(s) ==> s == config.notifications.sound
            &&& !replace
            &&& track is None
        },
{
}

/// A notification that could not be posted is not remembered.
pub proof fn failed_delivery_is_not_remembered(
    action: NotifActionView,
    state: DaemonStateView,
    room_id: Seq<char>,
    clock: int,
)
    ensures
        settled(action, state, room_id, false, clock) == state,
        outgoing(action, room_id) is None ==> settled(action, state, room_id, true, clock) == state,
{
}

/// The state once a message was announced and its notification posted.
pub open spec fn after_message(
    n: MessageNotifView,
    state: DaemonStateView,
    config: ConfigView,
    now: LocalTime,
    clock: int,
    later: int,
) -> DaemonStateView {
    let action = message_action(n, state, config, now, clock);
    settled(action, after_decision(action, state, n.room_id, clock), n.room_id, true, later)
}

/// A message that was announced is found by its event, under its own tag unless the room remembers
/// an earlier notification for the same event.
proof fn announced_message_is_found(
    n: MessageNotifView,
    state: DaemonStateView,
    config: ConfigView,
    now: LocalTime,
    clock: int,
    later: int,
)
    requires
        n.kind == EventKind::Message,
        message_action(n, state, config, now, clock) is Send,
    ensures
        ({
            let decided = state.notified(n.room_id, clock);
            &&& after_message(n, state, config, now, clock, later) == decided.recorded(
                n.room_id,
                "msg:"@ + n.event_id,
                n.event_id,
                n.event_ts_secs,
                later,
            )
            &&& after_message(n, state, config, now, clock, later).tag_for(
                n.room_id,
                n.event_id,
            ) is Some
            &&& state.tag_for(n.room_id, n.event_id) is None ==> after_message(
                n,
                state,
                config,
                now,
                clock,
                later,
            ).tag_for(n.room_id, n.event_id) == Some("msg:"@ + n.event_id)
        }),
{
    crate::laws::filtering::only_edits_replace(n.context(), config, now);
    let decided = state.notified(n.room_id, clock);
    assert(decided.history == state.history);
    assert(decided.tag_for(n.room_id, n.event_id) == state.tag_for(n.room_id, n.event_id));
    recorded_is_found(
        decided,
        n.room_id,
        "msg:"@ + n.event_id,
        n.event_id,
        n.event_ts_secs,
        later,
    );
}

/// An edit of a message that was announced updates the notification that is remembered for the
/// message, and adds nothing to what is remembered. That notification is the message's own, unless
/// the room remembers an earlier one for the same event.
pub proof fn edit_updates_its_message(
    n: MessageNotifView,
    edit: MessageNotifView,
    state: DaemonStateView,
    config: ConfigView,
    now: LocalTime,
    clock: int,
    later: int,
    edit_config: ConfigView,
    edit_now: LocalTime,
    edit_clock: int,
)
    requires
        n.kind == EventKind::Message,
        message_action(n, state, config, now, clock) is Send,
        edit.kind == EventKind::Edit,
        edit.edited_event_id == Some(n.event_id),
        edit.room_id == n.room_id,
        verdict(edit.context(), edit_config, edit_now) != FilterResult::Suppress,
    ensures
        ({
            let after = after_message(n, state, config, now, clock, later);
            let action = message_action(edit, after, edit_config, edit_now, edit_clock);
            &&& action is Send
            &&& Some(action->tag) == after.tag_for(n.room_id, n.event_id)
            &&& state.tag_for(n.room_id, n.event_id) is None ==> action->tag == "msg:"@
                + n.event_id
            &&& action->track is None
            &&& after_message(edit, after, edit_config, edit_now, edit_clock, later).history
                == after.history
        }),
{
    announced_message_is_found(n, state, config, now, clock, later);
}

/// An edit of a message that was not announced is not announced either.
pub proof fn edit_of_the_unknown_is_suppressed(
    edit: MessageNotifView,
    state: DaemonStateView,
    config: ConfigView,
    now: LocalTime,
    clock: int,
)
    requires
        edit.kind == EventKind::Edit,
        edit.original_tag(state) is None,
    ensures
        message_action(edit, state, config, now, clock) is Suppress,
        after_message(edit, state, config, now, clock, clock) == state,
{
}

/// A notification that was posted and is remembered can be dismissed: it is found by its tag, where
/// a call is hung up, and among those that a read receipt dismisses, be the receipt of the event's
/// time or later or without a time. It is found by its event, where the event is redacted, unless
/// the room remembers an earlier one for the same event.
pub proof fn posted_can_be_dismissed(
    action: NotifActionView,
    state: DaemonStateView,
    room_id: Seq<char>,
    later: int,
    receipt: Receipt,
)
    requires
        action is Send,
        action->track is Some,
        receipt.ts matches Some(ts) ==> action->track->0.event_ts <= ts / 1000,
    ensures
        ({
            let after = settled(action, state, room_id, true, later);
            &&& state.tag_for(room_id, action->track->0.event_id) is None ==> after.tag_for(
                room_id,
                action->track->0.event_id,
            ) == Some(action->tag)
            &&& after.has_tag(room_id, action->tag)
            &&& receipt_tags(receipt, room_id, after).contains(action->tag)
        }),
{
    let tag = action->tag;
    let event = action->track->0;
    let after = settled(action, state, room_id, true, later);
    recorded_is_found(state, room_id, tag, event.event_id, event.event_ts, later);
    let entry = NotifEntryView {
        sent_at: later,
        tag,
        event_id: event.event_id,
        event_ts: event.event_ts,
    };
    let before = entries_in(state.history, room_id);
    let k = new_entry_comes_last(before, entry, later);
    let entries = entries_in(after.history, room_id);
    let last = entries.len() - 1;
    assert(entries == before.skip(k).push(entry));
    assert(entries[last] == entry);
    match receipt.ts {
        Some(ts) => {
            let cutoff = (ts / 1000) as int;
            receipt_splits_the_room(entries, cutoff);
            assert(covered(entries, cutoff).contains(entries[last]));
            let i = choose|i: int|
                0 <= i < covered(entries, cutoff).len() && covered(entries, cutoff)[i] == entry;
            assert(tags_of(covered(entries, cutoff))[i] == tag);
        },
        None => {
            assert(tags_of(entries)[last] == tag);
        },
    }
}

/// A message that was announced can be dismissed, under the tag that names its event.
pub proof fn announced_message_can_be_dismissed(
    n: MessageNotifView,
    state: DaemonStateView,
    config: ConfigView,
    now: LocalTime,
    clock: int,
    later: int,
    receipt: Receipt,
)
    requires
        n.kind == EventKind::Message,
        message_action(n, state, config, now, clock) is Send,
        receipt.ts matches Some(ts) ==> n.event_ts_secs <= ts / 1000,
    ensures
        ({
            let after = after_message(n, state, config, now, clock, later);
            &&& after.has_tag(n.room_id, "msg:"@ + n.event_id)
            &&& state.tag_for(n.room_id, n.event_id) is None ==> after.tag_for(
                n.room_id,
                n.event_id,
            ) == Some("msg:"@ + n.event_id)
            &&& receipt_tags(receipt, n.room_id, after).contains("msg:"@ + n.event_id)
        }),
{
    crate::laws::filtering::only_edits_replace(n.context(), config, now);
    let action = message_action(n, state, config, now, clock);
    let decided = state.notified(n.room_id, clock);
    assert(decided.tag_for(n.room_id, n.event_id) == state.tag_for(n.room_id, n.event_id));
    posted_can_be_dismissed(action, decided, n.room_id, later, receipt);
}

/// A reaction that was announced can be dismissed, under the tag that names the message reacted
/// to.
pub proof fn announced_reaction_can_be_dismissed(
    r: ReactionNotifView,
    state: DaemonStateView,
    config: ConfigView,
    now: LocalTime,
    clock: int,
    later: int,
    receipt: Receipt,
)
    requires
        reaction_action(r, state, config, now, clock) is Send,
        receipt.ts matches Some(ts) ==> r.event_ts_secs <= ts / 1000,
    ensures
        ({
            let action = reaction_action(r, state, config, now, clock);
            let decided = after_decision(action, state, r.room_id, clock);
            let after = settled(action, decided, r.room_id, true, later);
            &&& after.has_tag(r.room_id, "react:"@ + r.target_event_id)
            &&& state.tag_for(r.room_id, r.reaction_event_id) is None ==> after.tag_for(
                r.room_id,
                r.reaction_event_id,
            ) == Some("react:"@ + r.target_event_id)
            &&& receipt_tags(receipt, r.room_id, after).contains("react:"@ + r.target_event_id)
        }),
{
    let action = reaction_action(r, state, config, now, clock);
    let decided = state.notified(r.room_id, clock);
    assert(decided.tag_for(r.room_id, r.reaction_event_id) == state.tag_for(
        r.room_id,
        r.reaction_event_id,
    ));
    posted_can_be_dismissed(action, decided, r.room_id, later, receipt);
}

/// A call that was announced has its notification found when it is hung up.
pub proof fn announced_call_can_be_dismissed(
    c: CallNotifView,
    state: DaemonStateView,
    config: ConfigView,
    now: LocalTime,
    later: int,
)
    requires
        call_action(c, config, now) is Send,
    ensures
        settled(call_action(c, config, now), state, c.room_id, true, later).has_tag(
            c.room_id,
            "call:"@ + c.call_id,
        ),
{
    recorded_is_found(
        state,
        c.room_id,
        "call:"@ + c.call_id,
        c.call_event_id,
        c.event_ts_secs,
        later,
    );
}

/// A notification with the tag of a popup that is shown replaces that popup, and no other; once
/// a popup is closed there is none to replace.
pub proof fn popups_follow_their_tags(
    active: Map<Seq<char>, u32>,
    tag: Seq<char>,
    other: Seq<char>,
    id: u32,
)
    ensures
        popup_id(active.insert(tag, id), tag) == Some(id),
        popup_id(active.remove(tag), tag) is None,
        other != tag ==> popup_id(active.insert(tag, id), other) == popup_id(active, other),
        other != tag ==> popup_id(active.remove(tag), other) == popup_id(active, other),
{
}

/// What a read receipt dismissed is not dismissed again by the same receipt.
pub proof fn receipt_works_once(receipt: Receipt, room_id: Seq<char>, state: DaemonStateView)
    ensures
        receipt_tags(receipt, room_id, after_receipt(receipt, room_id, state)).len() == 0,
{
    match receipt.ts {
        Some(ts) => draining_clears_the_room(state, room_id, (ts / 1000) as int),
        None => draining_clears_the_room(state, room_id, 0),
    }
}

/// However notifications are remembered and forgotten, what always holds of the state goes on to
/// hold: the limits, the order of the entries, and that nothing is remembered of a time to come.
pub proof fn bounds_hold(
    state: DaemonStateView,
    room_id: Seq<char>,
    tag: Seq<char>,
    event_id: Seq<char>,
    event_ts: int,
    at: int,
    now: int,
)
    requires
        state.within_bounds(),
        at >= 0,
        now >= state.latest,
    ensures
        DaemonStateView::fresh(event_id).within_bounds(),
        state.marked_seen(event_id).within_bounds(),
        state.recorded(room_id, tag, event_id, event_ts, now).within_bounds(),
        state.without(room_id, at).within_bounds(),
        state.drained(room_id).within_bounds(),
        state.drained_up_to(room_id, event_ts).within_bounds(),
        state.cleaned_up(now).within_bounds(),
        state.notified(room_id, now).within_bounds(),
{
    recording_keeps_bounds(state, room_id, tag, event_id, event_ts, now);
    removal_keeps_bounds(state, room_id, at);
    draining_keeps_bounds(state, room_id, event_ts);
    cleanup_keeps_bounds(state, now);
}

} // verus!
