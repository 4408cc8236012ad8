//! Laws of single calls that decide about events and announce them: what is announced, how it reads
//! and what is remembered, said of the event, the configuration and what was remembered before.
use vstd::prelude::*;

use crate::clock::{shown, LocalTime};
use crate::config::{Config, ConfigView, NotificationConfig, RoomConfig};
use crate::decide::{
    after_decision, call_action, decide_call_notif, decide_call_notif_at, decide_invite_notif,
    decide_invite_notif_at, decide_message_notif, decide_message_notif_at, decide_reaction_notif,
    decide_reaction_notif_at, dispatch_action, invite_action, message_action, posted,
    reaction_action, settle_at, settled, CallNotif, InviteNotif, MessageNotif, NotifAction,
    NotifActionView, ReactionNotif, TrackedEvent,
};
use crate::filters::{
    body_text, evaluate, highlights, truncate, EventContext, EventKind, FilterResult,
};
use crate::handlers::{
    accept_call_invite, accept_invite, accept_message, accept_reaction, announce_call_invite,
    announce_call_invite_at, announce_invite, announce_invite_at, announce_message,
    announce_message_at, announce_reaction, announce_reaction_at, announced, announced_plainly,
    call_notif, invite_notif, is_own_message, message_notif, reaction_notif, CallInviteEvent,
    MemberEvent, Membership, MessageContent, MessageEvent, ReactionEvent, RoomFacts, TargetMessage,
};
use crate::ids::localpart_of;
use crate::laws::evaluation::{listed, named_is_among_the_texts};
use crate::laws::memory::{
    debounced_is_too_soon, first_for_event, kept, marked, noted, recording_remembers, remembered,
    too_soon,
};
use crate::notification::{NotificationView, Notifier, Request};
use crate::state::{lemma_first_where, DaemonState, DaemonStateView, NotifEntryView};

verus! {

/// Whether the filters look at a message as it is.
pub open spec fn shows_message(ctx: EventContext, n: MessageNotif) -> bool {
    &&& ctx.kind == n.kind
    &&& ctx.sender@ == n.sender@
    &&& ctx.room_id@ == n.room_id@
    &&& ctx.is_direct == n.is_direct
    &&& ctx.is_encrypted == n.is_encrypted
    &&& ctx.mentions_you == n.mentions_you
    &&& ctx.mentions_room == n.mentions_room
    &&& ctx.matched_keyword == n.matched_keyword
    &&& ctx.event_ts_secs == n.event_ts_secs
}

/// Whether the filters look at something without highlights that came in so.
pub open spec fn shows_plain(
    ctx: EventContext,
    kind: EventKind,
    sender: Seq<char>,
    room_id: Seq<char>,
    is_direct: bool,
    is_encrypted: bool,
    event_ts_secs: i64,
) -> bool {
    &&& ctx.kind == kind
    &&& ctx.sender@ == sender
    &&& ctx.room_id@ == room_id
    &&& ctx.is_direct == is_direct
    &&& ctx.is_encrypted == is_encrypted
    &&& !ctx.mentions_you
    &&& !ctx.mentions_room
    &&& !ctx.matched_keyword
    &&& ctx.event_ts_secs == event_ts_secs
}

/// Whether an optional string is the configured sound where `sounds`, and nothing where not.
pub open spec fn sounds_so(sound: Option<String>, config: Config, sounds: bool) -> bool {
    &&& (sound is Some) == sounds
    &&& sound matches Some(s) ==> s@ == config.notifications.sound@
}

/// Whether an optional string reads so.
pub open spec fn reads(s: Option<String>, text: Seq<char>) -> bool {
    s is Some && s->0@ == text
}

/// A notification for a message or a replacing edit names the sender of a direct chat, and the room
/// with the sender below it elsewhere. An edit that does not replace says that it is one.
pub proof fn messages_name_sender_and_room(
    n: MessageNotif,
    state: &mut DaemonState,
    config: Config,
    now: LocalTime,
    clock: u128,
    r: NotifAction,
)
    requires
        call_ensures(decide_message_notif_at, (n, state, &config, now, clock), r),
        r is Send,
    ensures
        n.is_direct ==> r->subtitle is None,
        !n.is_direct ==> reads(r->subtitle, n.sender_name@),
        (n.kind != EventKind::Edit || r->replace) && n.is_direct ==> r->title@ == n.sender_name@,
        (n.kind != EventKind::Edit || r->replace) && !n.is_direct ==> r->title@ == n.room_name@,
        n.kind == EventKind::Edit && !r->replace ==> r->title@ == n.sender_name@
            + " edited their message"@,
        r->body@ == n.body@,
{
    crate::laws::filtering::only_edits_replace(n@.context(), config@, now);
}

/// An edit that replaces the notification of a message leaves its title and subtitle as they are,
/// as long as room and sender are called as before.
pub proof fn replacing_edits_keep_title_and_subtitle(
    n: MessageNotif,
    edit: MessageNotif,
    state: &mut DaemonState,
    later: &mut DaemonState,
    config: Config,
    edit_config: Config,
    now: LocalTime,
    edit_now: LocalTime,
    clock: u128,
    edit_clock: u128,
    r: NotifAction,
    replaced: NotifAction,
)
    requires
        call_ensures(decide_message_notif_at, (n, state, &config, now, clock), r),
        call_ensures(
            decide_message_notif_at,
            (edit, later, &edit_config, edit_now, edit_clock),
            replaced,
        ),
        n.kind == EventKind::Message,
        r is Send,
        replaced is Send && replaced->replace,
        edit.is_direct == n.is_direct,
        edit.sender_name@ == n.sender_name@,
        edit.room_name@ == n.room_name@,
    ensures
        replaced->title@ == r->title@,
        (replaced->subtitle is Some) == (r->subtitle is Some),
        r->subtitle matches Some(s) ==> reads(replaced->subtitle, s@),
{
    messages_name_sender_and_room(n, state, config, now, clock, r);
    messages_name_sender_and_room(
        edit,
        later,
        edit_config,
        edit_now,
        edit_clock,
        replaced,
    );
}

/// What is decided about a message is what the filters say of it: nothing where they suppress it; an
/// edit updates the first notification that is remembered for the edited message, and is dropped
/// where there is none; any other message is announced under a tag of its own. What is announced
/// anew sounds where the filters ask for it and the debounce window of the room allows it, and
/// starts that window; a replacement does neither.
pub proof fn messages_are_decided_by_the_filters(
    n: MessageNotif,
    state: &mut DaemonState,
    config: Config,
    now: LocalTime,
    clock: u128,
    ctx: EventContext,
    v: FilterResult,
    room_id: &str,
    room: RoomConfig,
    at: int,
    r: NotifAction,
)
    requires
        call_ensures(decide_message_notif_at, (n, state, &config, now, clock), r),
        shows_message(ctx, n),
        call_ensures(evaluate, (&ctx, &config, now), v),
        room_id@ == n.room_id@,
        call_ensures(
            NotificationConfig::effective_for,
            (&config.notifications, room_id, n.is_direct),
            room,
        ),
        n.edited_event_id matches Some(id) ==> first_for_event(
            kept(old(state)@, n.room_id@),
            id@,
            at,
        ),
    ensures
        ({
            let entries = kept(old(state)@, n.room_id@);
            let known = n.edited_event_id is Some && at < entries.len();
            &&& v == FilterResult::Suppress ==> r is Suppress
            &&& v == FilterResult::Replace ==> (r is Send) == known
            &&& v == FilterResult::Replace && r is Send ==> r->replace && r->sound is None
            &&& v is Notify && n.kind == EventKind::Edit ==> (r is Send) == known
            &&& v is Notify && n.kind != EventKind::Edit ==> r is Send && r->tag@ == "msg:"@
                + n.event_id@ && r->track is Some && r->track->0.event_id@ == n.event_id@
                && r->track->0.event_ts == n.event_ts_secs
            &&& v is Notify && r is Send ==> !r->replace && sounds_so(
                r->sound,
                config,
                v->sound && (listed(config, n.sender@) || !too_soon(
                    old(state)@,
                    n.room_id@,
                    room.noisy_debounce_seconds as int,
                    clock as int,
                )),
            )
            &&& (v == FilterResult::Replace || n.kind == EventKind::Edit) && r is Send ==> r->tag@
                == entries[at].tag && r->track is None
            &&& r is Send && !r->replace ==> noted(
                old(state)@,
                final(state)@,
                n.room_id@,
                clock as int,
            )
            &&& r is Suppress || r->replace ==> final(state)@ == old(state)@
        }),
{
    assert(ctx@ == n@.context());
    let senders = config.notifications.senders;
    named_is_among_the_texts(senders.off@, n.sender@);
    named_is_among_the_texts(senders.silent@, n.sender@);
    named_is_among_the_texts(senders.noisy@, n.sender@);
    let entries = kept(old(state)@, n.room_id@);
    if n.edited_event_id is Some {
        let id = n.edited_event_id->0@;
        lemma_first_where(entries, |e: NotifEntryView| e.event_id == id, at);
    }
    crate::laws::filtering::only_edits_replace(n@.context(), config@, now);
    debounced_is_too_soon(
        old(state)@,
        n.room_id@,
        room.noisy_debounce_seconds as int,
        clock as int,
    );
    let eff = config@.notifications.effective(n.room_id@, n.is_direct);
    assert(room@ == eff);
    assert(eff.noisy_debounce_seconds == room.noisy_debounce_seconds);
}

/// What is decided about a reaction is what the filters say of it. It is announced under a tag that
/// names the message reacted to, shows that message, cut where it is too long, and sounds by the
/// same rule as a message does.
pub proof fn reactions_are_decided_by_the_filters(
    n: ReactionNotif,
    state: &mut DaemonState,
    config: Config,
    now: LocalTime,
    clock: u128,
    ctx: EventContext,
    v: FilterResult,
    room_id: &str,
    room: RoomConfig,
    original: &str,
    cut: String,
    r: NotifAction,
)
    requires
        call_ensures(decide_reaction_notif_at, (n, state, &config, now, clock), r),
        shows_plain(
            ctx,
            EventKind::Reaction,
            n.reactor_user_id@,
            n.room_id@,
            n.is_direct,
            n.is_encrypted,
            n.event_ts_secs,
        ),
        call_ensures(evaluate, (&ctx, &config, now), v),
        room_id@ == n.room_id@,
        call_ensures(
            NotificationConfig::effective_for,
            (&config.notifications, room_id, n.is_direct),
            room,
        ),
        original@ == n.original_body@,
        call_ensures(truncate, (original, config.behavior.max_body_length), cut),
    ensures
        (r is Send) == (v is Notify),
        r is Send ==> {
            &&& r->tag@ == "react:"@ + n.target_event_id@
            &&& r->title@ == n.reactor_name@ + " reacted "@ + n.reaction_key@
            &&& r->subtitle is None
            &&& r->body@ == cut@
            &&& !r->replace
            &&& r->track is Some && r->track->0.event_id@ == n.reaction_event_id@
                && r->track->0.event_ts == n.event_ts_secs
            &&& sounds_so(
                r->sound,
                config,
                v->sound && (listed(config, n.reactor_user_id@) || !too_soon(
                    old(state)@,
                    n.room_id@,
                    room.noisy_debounce_seconds as int,
                    clock as int,
                )),
            )
            &&& noted(old(state)@, final(state)@, n.room_id@, clock as int)
        },
        r is Suppress ==> final(state)@ == old(state)@,
{
    assert(ctx@ == n@.context());
    let senders = config.notifications.senders;
    named_is_among_the_texts(senders.off@, n.reactor_user_id@);
    named_is_among_the_texts(senders.silent@, n.reactor_user_id@);
    named_is_among_the_texts(senders.noisy@, n.reactor_user_id@);
    crate::laws::filtering::only_edits_replace(n@.context(), config@, now);
    debounced_is_too_soon(
        old(state)@,
        n.room_id@,
        room.noisy_debounce_seconds as int,
        clock as int,
    );
    let eff = config@.notifications.effective(n.room_id@, n.is_direct);
    assert(room@ == eff);
    assert(eff.noisy_debounce_seconds == room.noisy_debounce_seconds);
}

/// What is decided about an invitation is what the filters say of it. It is announced under a tag
/// that names the room, with the room in its title and who invites below it, and is not remembered.
pub proof fn invitations_are_decided_by_the_filters(
    n: InviteNotif,
    config: Config,
    now: LocalTime,
    ctx: EventContext,
    v: FilterResult,
    r: NotifAction,
)
    requires
        call_ensures(decide_invite_notif_at, (n, &config, now), r),
        shows_plain(
            ctx,
            EventKind::Invite,
            n.sender@,
            n.room_id@,
            false,
            false,
            n.event_ts_secs,
        ),
        call_ensures(evaluate, (&ctx, &config, now), v),
    ensures
        (r is Send) == (v is Notify),
        r is Send ==> {
            &&& r->tag@ == "invite:"@ + n.room_id@
            &&& r->title@ == "invite to "@ + n.room_name@
            &&& reads(r->subtitle, "from "@ + n.sender_localpart@)
            &&& r->body@ == ""@
            &&& !r->replace
            &&& r->track is None
            &&& sounds_so(r->sound, config, v->sound)
        },
{
    assert(ctx@ == n@.context());
    crate::laws::filtering::only_edits_replace(n@.context(), config@, now);
}

/// What is decided about a call is what the filters say of it. It is announced under a tag that names
/// the call, with the caller in its title, and sounds whatever came before it.
pub proof fn calls_are_decided_by_the_filters(
    n: CallNotif,
    config: Config,
    now: LocalTime,
    ctx: EventContext,
    v: FilterResult,
    r: NotifAction,
)
    requires
        call_ensures(decide_call_notif_at, (n, &config, now), r),
        shows_plain(
            ctx,
            EventKind::Call,
            n.caller_user_id@,
            n.room_id@,
            n.is_direct,
            n.is_encrypted,
            n.event_ts_secs,
        ),
        call_ensures(evaluate, (&ctx, &config, now), v),
    ensures
        (r is Send) == (v is Notify),
        r is Send ==> {
            &&& r->tag@ == "call:"@ + n.call_id@
            &&& r->title@ == "incoming call from "@ + n.caller_name@
            &&& r->subtitle is None
            &&& r->body@ == ""@
            &&& !r->replace
            &&& r->track is Some && r->track->0.event_id@ == n.call_event_id@
                && r->track->0.event_ts == n.event_ts_secs
            &&& sounds_so(r->sound, config, v->sound)
        },
{
    assert(ctx@ == n@.context());
    crate::laws::filtering::only_edits_replace(n@.context(), config@, now);
}

/// What is decided right now is what is decided at some moment that a wall clock shows, with a
/// reading of the daemon's clock that is no earlier than any before.
pub proof fn fresh_decisions_are_decisions(
    m: MessageNotif,
    i: InviteNotif,
    a: ReactionNotif,
    c: CallNotif,
    state: &mut DaemonState,
    other: &mut DaemonState,
    config: Config,
    of_m: NotifAction,
    of_i: NotifAction,
    of_a: NotifAction,
    of_c: NotifAction,
)
    requires
        call_ensures(decide_message_notif, (m, state, &config), of_m),
        call_ensures(decide_invite_notif, (i, &config), of_i),
        call_ensures(decide_reaction_notif, (a, other, &config), of_a),
        call_ensures(decide_call_notif, (c, &config), of_c),
    ensures
        exists|now: LocalTime, clock: int|
            shown(now) && clock >= old(state)@.latest && of_m@ == #[trigger] message_action(
                m@,
                old(state)@,
                config@,
                now,
                clock,
            ) && final(state)@ == after_decision(of_m@, old(state)@, m.room_id@, clock),
        exists|now: LocalTime| shown(now) && of_i@ == #[trigger] invite_action(i@, config@, now),
        exists|now: LocalTime, clock: int|
            shown(now) && clock >= old(other)@.latest && of_a@ == #[trigger] reaction_action(
                a@,
                old(other)@,
                config@,
                now,
                clock,
            ) && final(other)@ == after_decision(of_a@, old(other)@, a.room_id@, clock),
        exists|now: LocalTime| shown(now) && of_c@ == #[trigger] call_action(c@, config@, now),
{
}

/// Whether an action was carried out: what it sends is posted once, grouped by its room, and
/// remembered where it was posted and is to be; all else stays as it was.
pub open spec fn carried_out(
    action: NotifActionView,
    room_id: Seq<char>,
    requests: Seq<Request>,
    requests_after: Seq<Request>,
    before: DaemonStateView,
    after: DaemonStateView,
    ok: bool,
    now: int,
) -> bool {
    match action {
        NotifActionView::Suppress => requests_after == requests && after == before,
        NotifActionView::Send { tag, title, subtitle, body, sound, replace, track } => {
            let notification = NotificationView {
                tag,
                title,
                subtitle,
                body,
                sound,
                thread_id: room_id,
                replace,
            };
            &&& requests_after == requests.push(Request::Send { notification, ok })
            &&& ok && track is Some ==> remembered(
                before,
                after,
                room_id,
                tag,
                track->0.event_id,
                track->0.event_ts,
                now,
            )
            &&& !ok || track is None ==> after == before
        },
    }
}

/// What posting and settling do in the model is to carry out an action.
proof fn settling_carries_out(
    action: NotifActionView,
    room_id: Seq<char>,
    requests: Seq<Request>,
    before: DaemonStateView,
    ok: bool,
    now: int,
)
    ensures
        carried_out(
            action,
            room_id,
            requests,
            requests + posted(action, room_id, ok),
            before,
            settled(action, before, room_id, ok, now),
            ok,
            now,
        ),
{
    match action {
        NotifActionView::Suppress => {
            assert(requests + posted(action, room_id, ok) =~= requests);
        },
        NotifActionView::Send { tag, title, subtitle, body, sound, replace, track } => {
            let notification = NotificationView {
                tag,
                title,
                subtitle,
                body,
                sound,
                thread_id: room_id,
                replace,
            };
            assert(requests + posted(action, room_id, ok) =~= requests.push(
                Request::Send { notification, ok },
            ));
            if ok && track is Some {
                recording_remembers(
                    before,
                    room_id,
                    tag,
                    track->0.event_id,
                    track->0.event_ts,
                    now,
                );
            }
        },
    }
}

/// An action is carried out, whatever the notifier answers.
pub proof fn actions_are_carried_out<N: Notifier>(
    action: NotifAction,
    notifier: &mut N,
    state: &mut DaemonState,
    room_id: &str,
)
    requires
        call_ensures(dispatch_action::<N>, (action, notifier, state, room_id), ()),
    ensures
        exists|ok: bool, now: int|
            now >= old(state)@.latest && #[trigger] carried_out(
                action@,
                room_id@,
                old(notifier).requests(),
                final(notifier).requests(),
                old(state)@,
                final(state)@,
                ok,
                now,
            ),
{
    let (ok, now) = choose|ok: bool, now: int|
        now >= old(state)@.latest && final(notifier).requests() == old(notifier).requests()
            + #[trigger] posted(action@, room_id@, ok) && final(state)@ == #[trigger] settled(
            action@,
            old(state)@,
            room_id@,
            ok,
            now,
        );
    settling_carries_out(
        action@,
        room_id@,
        old(notifier).requests(),
        old(state)@,
        ok,
        now,
    );
}

/// What an action says is what its fields say.
pub proof fn actions_say_what_they_hold(action: NotifAction)
    ensures
        (action@ is Send) == (action is Send),
        action is Send ==> {
            &&& action@->tag == action->tag@
            &&& action@->title == action->title@
            &&& action@->body == action->body@
            &&& action@->replace == action->replace
            &&& (action@->subtitle is Some) == (action->subtitle is Some)
            &&& action->subtitle matches Some(s) ==> action@->subtitle == Some(s@)
            &&& (action@->sound is Some) == (action->sound is Some)
            &&& action->sound matches Some(s) ==> action@->sound == Some(s@)
            &&& (action@->track is Some) == (action->track is Some)
            &&& action->track matches Some(t) ==> action@->track->0.event_id == t.event_id@
                && action@->track->0.event_ts == t.event_ts
        },
{
}

/// A notification is remembered once it was posted and where it is to be, and only then.
pub proof fn posted_notifications_are_settled(
    tag: String,
    track: Option<TrackedEvent>,
    ok: bool,
    state: &mut DaemonState,
    room_id: &str,
    clock: u128,
)
    requires
        call_ensures(settle_at, (tag, track, ok, state, room_id, clock), ()),
    ensures
        ok && track is Some ==> remembered(
            old(state)@,
            final(state)@,
            room_id@,
            tag@,
            track->0.event_id@,
            track->0.event_ts as int,
            clock as int,
        ),
        !ok || track is None ==> final(state)@ == old(state)@,
{
    if ok && track is Some {
        recording_remembers(
            old(state)@,
            room_id@,
            tag@,
            track->0.event_id@,
            track->0.event_ts as int,
            clock as int,
        );
    }
}

/// Whether an event was taken note of: those of others are marked as seen once the first sync is
/// over, and nothing else changes.
pub open spec fn taken_note(
    before: DaemonStateView,
    after: DaemonStateView,
    sender: Seq<char>,
    event_id: Seq<char>,
) -> bool {
    &&& before.initial_sync_done && sender != before.own_user_id ==> marked(before, after, event_id)
    &&& !before.initial_sync_done || sender == before.own_user_id ==> after == before
}

/// Whether an event is one to listen to: the first sync is over, someone else sent it, and it was
/// not seen before.
pub open spec fn worth_hearing(
    state: DaemonStateView,
    sender: Seq<char>,
    event_id: Seq<char>,
) -> bool {
    state.initial_sync_done && sender != state.own_user_id && !state.seen.contains(event_id)
}

/// A message is accepted where it is worth hearing and not redacted.
pub proof fn messages_are_accepted(ev: MessageEvent, state: &mut DaemonState, r: bool)
    requires
        call_ensures(accept_message, (&ev, state), r),
    ensures
        r == (worth_hearing(old(state)@, ev.sender@, ev.event_id@) && ev.content is Some),
        taken_note(old(state)@, final(state)@, ev.sender@, ev.event_id@),
{
}

/// A reaction is accepted where it is worth hearing; a redacted one is none.
pub proof fn reactions_are_accepted(ev: Option<ReactionEvent>, state: &mut DaemonState, r: bool)
    requires
        call_ensures(accept_reaction, (&ev, state), r),
    ensures
        ev matches Some(e) ==> r == worth_hearing(old(state)@, e.sender@, e.event_id@)
            && taken_note(old(state)@, final(state)@, e.sender@, e.event_id@),
        ev is None ==> !r && final(state)@ == old(state)@,
{
}

/// A call is accepted where it is worth hearing and is for the user or for everyone; a redacted one
/// is none.
pub proof fn calls_are_accepted(ev: Option<CallInviteEvent>, state: &mut DaemonState, r: bool)
    requires
        call_ensures(accept_call_invite, (&ev, state), r),
    ensures
        ev matches Some(e) ==> r == (worth_hearing(old(state)@, e.sender@, e.event_id@) && (
        e.invitee is None || e.invitee->0@ == old(state)@.own_user_id)) && taken_note(
            old(state)@,
            final(state)@,
            e.sender@,
            e.event_id@,
        ),
        ev is None ==> !r && final(state)@ == old(state)@,
{
}

/// An invitation is accepted where it invites the user and the first sync is over.
pub proof fn invitations_are_accepted(ev: MemberEvent, state: DaemonState, r: bool)
    requires
        call_ensures(accept_invite, (&ev, &state), r),
    ensures
        r == (state@.initial_sync_done && ev.membership == Membership::Invite && ev.state_key@
            == state@.own_user_id),
{
}

/// A message reacted to is the user's own where it could be fetched and the user sent it.
pub proof fn own_messages_are_known(target: Option<TargetMessage>, state: DaemonState, r: bool)
    requires
        call_ensures(is_own_message, (&target, &state), r),
    ensures
        target matches Some(t) ==> r == (t.sender@ == state@.own_user_id),
        target is None ==> !r,
{
}

/// Whether a text is a name where there is one, or else another text.
pub open spec fn named_or(text: Seq<char>, name: Option<String>, other: Seq<char>) -> bool {
    &&& name matches Some(n) ==> text == n@
    &&& name is None ==> text == other
}

/// A message is described as it came in: who sent it, where, when and what it says. It is an edit
/// where it replaces another. A room counts as a direct chat only where it is known to be one. Its
/// highlights are looked for in what its sender wrote, with the keywords of the room; its body is
/// what shows of it.
pub proof fn messages_are_described(
    ev: MessageEvent,
    content: MessageContent,
    room: RoomFacts,
    state: DaemonStateView,
    config: ConfigView,
)
    ensures
        ({
            let n = message_notif(ev, content, room, state, config);
            let direct = room.is_direct == Some(true);
            let marks = highlights(
                content.body@,
                content.mentions,
                state.own_user_id,
                state.display_name,
                config.notifications.effective(room.room_id@, direct).keywords,
            );
            &&& (n.kind == EventKind::Edit) == (content.replaces is Some)
            &&& (n.kind == EventKind::Message) == (content.replaces is None)
            &&& n.sender == ev.sender@
            &&& named_or(n.sender_name, room.sender_display_name, localpart_of(ev.sender@))
            &&& n.room_id == room.room_id@
            &&& named_or(n.room_name, room.display_name, room.room_id@)
            &&& n.is_direct == direct
            &&& n.is_encrypted == room.is_encrypted
            &&& n.mentions_you == marks.0
            &&& n.mentions_room == marks.1
            &&& n.matched_keyword == marks.2
            &&& n.event_ts_secs == content.origin_server_ts / 1000
            &&& n.event_id == ev.event_id@
            &&& (n.edited_event_id is Some) == (content.replaces is Some)
            &&& content.replaces matches Some(id) ==> n.edited_event_id == Some(id@)
            &&& n.body == body_text(content.msgtype, n.sender_name, config)
        }),
{
}

/// A reaction, a call and an invitation are described as they came in, too.
pub proof fn other_events_are_described(
    a: ReactionEvent,
    target: TargetMessage,
    c: CallInviteEvent,
    i: MemberEvent,
    room: RoomFacts,
    room_id: Seq<char>,
    display_name: Option<String>,
    event_ts_secs: int,
    config: ConfigView,
)
    ensures
        ({
            let n = reaction_notif(a, target, room, config);
            &&& n.reactor_user_id == a.sender@
            &&& named_or(n.reactor_name, room.sender_display_name, localpart_of(a.sender@))
            &&& n.target_event_id == a.target_event_id@
            &&& n.reaction_event_id == a.event_id@
            &&& n.reaction_key == a.key@
            &&& n.original_body == body_text(target.msgtype, localpart_of(target.sender@), config)
            &&& n.is_direct == (room.is_direct == Some(true))
            &&& n.is_encrypted == room.is_encrypted
            &&& n.event_ts_secs == a.origin_server_ts / 1000
            &&& n.room_id == room.room_id@
        }),
        ({
            let n = call_notif(c, room);
            &&& n.caller_user_id == c.sender@
            &&& named_or(n.caller_name, room.sender_display_name, localpart_of(c.sender@))
            &&& n.call_id == c.call_id@
            &&& n.call_event_id == c.event_id@
            &&& n.is_direct == (room.is_direct == Some(true))
            &&& n.is_encrypted == room.is_encrypted
            &&& n.event_ts_secs == c.origin_server_ts / 1000
            &&& n.room_id == room.room_id@
        }),
        ({
            let n = invite_notif(i, room_id, display_name, event_ts_secs);
            &&& n.sender == i.sender@
            &&& n.sender_localpart == localpart_of(i.sender@)
            &&& n.room_id == room_id
            &&& named_or(n.room_name, display_name, room_id)
            &&& n.event_ts_secs == event_ts_secs
        }),
{
}

/// Whether a decided event was announced: the decision is noted as the last of its room where
/// something new is sent, and the action was carried out.
pub open spec fn decided_and_carried_out(
    action: NotifActionView,
    room_id: Seq<char>,
    requests: Seq<Request>,
    requests_after: Seq<Request>,
    before: DaemonStateView,
    decided: DaemonStateView,
    after: DaemonStateView,
    clock: int,
    ok: bool,
    later: int,
) -> bool {
    &&& action is Send && !action->replace ==> noted(before, decided, room_id, clock)
    &&& action is Suppress || action->replace ==> decided == before
    &&& later >= decided.latest
    &&& carried_out(action, room_id, requests, requests_after, decided, after, ok, later)
}

/// What announcing does in the model is to note and to carry out.
proof fn announcing_carries_out(
    action: NotifActionView,
    room_id: Seq<char>,
    requests: Seq<Request>,
    requests_after: Seq<Request>,
    before: DaemonStateView,
    after: DaemonStateView,
    clock: int,
    ok: bool,
    later: int,
)
    requires
        announced(
            action,
            room_id,
            before,
            after,
            requests,
            requests_after,
            clock,
            ok,
            later,
        ),
    ensures
        decided_and_carried_out(
            action,
            room_id,
            requests,
            requests_after,
            before,
            after_decision(action, before, room_id, clock),
            after,
            clock,
            ok,
            later,
        ),
{
    let decided = after_decision(action, before, room_id, clock);
    settling_carries_out(action, room_id, requests, decided, ok, later);
}

/// An accepted message is announced as it is described and decided; a redacted one is left alone.
pub proof fn messages_are_announced<N: Notifier>(
    ev: MessageEvent,
    room: RoomFacts,
    state: &mut DaemonState,
    notifier: &mut N,
    config: Config,
    now: LocalTime,
    clock: u128,
)
    requires
        call_ensures(
            announce_message_at::<N>,
            (&ev, &room, state, notifier, &config, now, clock),
            (),
        ),
    ensures
        ev.content matches Some(content) ==> exists|
            decided: DaemonStateView,
            ok: bool,
            later: int,
        | #[trigger]
            decided_and_carried_out(
                message_action(
                    message_notif(ev, content, room, old(state)@, config@),
                    old(state)@,
                    config@,
                    now,
                    clock as int,
                ),
                room.room_id@,
                old(notifier).requests(),
                final(notifier).requests(),
                old(state)@,
                decided,
                final(state)@,
                clock as int,
                ok,
                later,
            ),
        ev.content is None ==> final(state)@ == old(state)@ && final(notifier).requests() == old(
            notifier,
        ).requests(),
{
    if let Some(content) = ev.content {
        let action = message_action(
            message_notif(ev, content, room, old(state)@, config@),
            old(state)@,
            config@,
            now,
            clock as int,
        );
        let (ok, later) = choose|ok: bool, later: int| #[trigger]
            announced(
                action,
                room.room_id@,
                old(state)@,
                final(state)@,
                old(notifier).requests(),
                final(notifier).requests(),
                clock as int,
                ok,
                later,
            );
        announcing_carries_out(
            action,
            room.room_id@,
            old(notifier).requests(),
            final(notifier).requests(),
            old(state)@,
            final(state)@,
            clock as int,
            ok,
            later,
        );
    }
}

/// An accepted reaction is announced as it is described and decided where the message reacted to is
/// the user's own; any other is left alone.
pub proof fn reactions_are_announced<N: Notifier>(
    ev: ReactionEvent,
    target: Option<TargetMessage>,
    room: RoomFacts,
    state: &mut DaemonState,
    notifier: &mut N,
    config: Config,
    now: LocalTime,
    clock: u128,
)
    requires
        call_ensures(
            announce_reaction_at::<N>,
            (&ev, &target, &room, state, notifier, &config, now, clock),
            (),
        ),
    ensures
        target is Some && target->0.sender@ == old(state)@.own_user_id ==> exists|
            decided: DaemonStateView,
            ok: bool,
            later: int,
        | #[trigger]
            decided_and_carried_out(
                reaction_action(
                    reaction_notif(ev, target->0, room, config@),
                    old(state)@,
                    config@,
                    now,
                    clock as int,
                ),
                room.room_id@,
                old(notifier).requests(),
                final(notifier).requests(),
                old(state)@,
                decided,
                final(state)@,
                clock as int,
                ok,
                later,
            ),
        target is None || target->0.sender@ != old(state)@.own_user_id ==> final(state)@ == old(
            state,
        )@ && final(notifier).requests() == old(notifier).requests(),
{
    if target is Some && target->0.sender@ == old(state)@.own_user_id {
        let action = reaction_action(
            reaction_notif(ev, target->0, room, config@),
            old(state)@,
            config@,
            now,
            clock as int,
        );
        let (ok, later) = choose|ok: bool, later: int| #[trigger]
            announced(
                action,
                room.room_id@,
                old(state)@,
                final(state)@,
                old(notifier).requests(),
                final(notifier).requests(),
                clock as int,
                ok,
                later,
            );
        announcing_carries_out(
            action,
            room.room_id@,
            old(notifier).requests(),
            final(notifier).requests(),
            old(state)@,
            final(state)@,
            clock as int,
            ok,
            later,
        );
    }
}

/// An accepted call is announced as it is described and decided, and starts no debounce window.
pub proof fn calls_are_announced<N: Notifier>(
    ev: CallInviteEvent,
    room: RoomFacts,
    state: &mut DaemonState,
    notifier: &mut N,
    config: Config,
    now: LocalTime,
)
    requires
        call_ensures(
            announce_call_invite_at::<N>,
            (&ev, &room, state, notifier, &config, now),
            (),
        ),
    ensures
        exists|ok: bool, later: int|
            later >= old(state)@.latest && #[trigger] carried_out(
                call_action(call_notif(ev, room), config@, now),
                room.room_id@,
                old(notifier).requests(),
                final(notifier).requests(),
                old(state)@,
                final(state)@,
                ok,
                later,
            ),
{
    let action = call_action(call_notif(ev, room), config@, now);
    let (ok, later) = choose|ok: bool, later: int| #[trigger]
        announced_plainly(
            action,
            room.room_id@,
            old(state)@,
            final(state)@,
            old(notifier).requests(),
            final(notifier).requests(),
            ok,
            later,
        );
    settling_carries_out(
        action,
        room.room_id@,
        old(notifier).requests(),
        old(state)@,
        ok,
        later,
    );
}

/// An accepted invitation is announced as it is described and decided, and starts no debounce
/// window.
pub proof fn invitations_are_announced<N: Notifier>(
    ev: MemberEvent,
    room_id: &str,
    display_name: Option<String>,
    state: &mut DaemonState,
    notifier: &mut N,
    config: Config,
    event_ts_secs: i64,
    now: LocalTime,
)
    requires
        call_ensures(
            announce_invite_at::<N>,
            (&ev, room_id, &display_name, state, notifier, &config, event_ts_secs, now),
            (),
        ),
    ensures
        exists|ok: bool, later: int|
            later >= old(state)@.latest && #[trigger] carried_out(
                invite_action(
                    invite_notif(ev, room_id@, display_name, event_ts_secs as int),
                    config@,
                    now,
                ),
                room_id@,
                old(notifier).requests(),
                final(notifier).requests(),
                old(state)@,
                final(state)@,
                ok,
                later,
            ),
{
    let action = invite_action(
        invite_notif(ev, room_id@, display_name, event_ts_secs as int),
        config@,
        now,
    );
    let (ok, later) = choose|ok: bool, later: int| #[trigger]
        announced_plainly(
            action,
            room_id@,
            old(state)@,
            final(state)@,
            old(notifier).requests(),
            final(notifier).requests(),
            ok,
            later,
        );
    settling_carries_out(
        action,
        room_id@,
        old(notifier).requests(),
        old(state)@,
        ok,
        later,
    );
}

/// What is announced right now is announced as at some moment that a wall clock shows, and a message
/// or a reaction with a reading of the daemon's clock that is no earlier than any before.
pub proof fn fresh_announcements_are_announcements<N: Notifier>(
    m: MessageEvent,
    a: ReactionEvent,
    target: Option<TargetMessage>,
    room: RoomFacts,
    config: Config,
    m_state: &mut DaemonState,
    m_notifier: &mut N,
    a_state: &mut DaemonState,
    a_notifier: &mut N,
)
    requires
        call_ensures(announce_message::<N>, (&m, &room, m_state, m_notifier, &config), ()),
        call_ensures(
            announce_reaction::<N>,
            (&a, &target, &room, a_state, a_notifier, &config),
            (),
        ),
    ensures
        m.content matches Some(content) ==> exists|
            now: LocalTime,
            decided: DaemonStateView,
            clock: int,
            ok: bool,
            later: int,
        |
            shown(now) && clock >= old(m_state)@.latest && #[trigger] decided_and_carried_out(
                message_action(
                    message_notif(m, content, room, old(m_state)@, config@),
                    old(m_state)@,
                    config@,
                    now,
                    clock,
                ),
                room.room_id@,
                old(m_notifier).requests(),
                final(m_notifier).requests(),
                old(m_state)@,
                decided,
                final(m_state)@,
                clock,
                ok,
                later,
            ),
        m.content is None ==> final(m_state)@ == old(m_state)@ && final(m_notifier).requests()
            == old(m_notifier).requests(),
        target is Some && target->0.sender@ == old(a_state)@.own_user_id ==> exists|
            now: LocalTime,
            decided: DaemonStateView,
            clock: int,
            ok: bool,
            later: int,
        |
            shown(now) && clock >= old(a_state)@.latest && #[trigger] decided_and_carried_out(
                reaction_action(
                    reaction_notif(a, target->0, room, config@),
                    old(a_state)@,
                    config@,
                    now,
                    clock,
                ),
                room.room_id@,
                old(a_notifier).requests(),
                final(a_notifier).requests(),
                old(a_state)@,
                decided,
                final(a_state)@,
                clock,
                ok,
                later,
            ),
        target is None || target->0.sender@ != old(a_state)@.own_user_id ==> final(a_state)@ == old(
            a_state,
        )@ && final(a_notifier).requests() == old(a_notifier).requests(),
{
    if let Some(content) = m.content {
        let described = message_notif(m, content, room, old(m_state)@, config@);
        let (now, clock, ok, later) = choose|now: LocalTime, clock: int, ok: bool, later: int|
            shown(now) && clock >= old(m_state)@.latest && #[trigger] announced(
                message_action(described, old(m_state)@, config@, now, clock),
                room.room_id@,
                old(m_state)@,
                final(m_state)@,
                old(m_notifier).requests(),
                final(m_notifier).requests(),
                clock,
                ok,
                later,
            );
        announcing_carries_out(
            message_action(described, old(m_state)@, config@, now, clock),
            room.room_id@,
            old(m_notifier).requests(),
            final(m_notifier).requests(),
            old(m_state)@,
            final(m_state)@,
            clock,
            ok,
            later,
        );
    }
    if target is Some && target->0.sender@ == old(a_state)@.own_user_id {
        let described = reaction_notif(a, target->0, room, config@);
        let (now, clock, ok, later) = choose|now: LocalTime, clock: int, ok: bool, later: int|
            shown(now) && clock >= old(a_state)@.latest && #[trigger] announced(
                reaction_action(described, old(a_state)@, config@, now, clock),
                room.room_id@,
                old(a_state)@,
                final(a_state)@,
                old(a_notifier).requests(),
                final(a_notifier).requests(),
                clock,
                ok,
                later,
            );
        announcing_carries_out(
            reaction_action(described, old(a_state)@, config@, now, clock),
            room.room_id@,
            old(a_notifier).requests(),
            final(a_notifier).requests(),
            old(a_state)@,
            final(a_state)@,
            clock,
            ok,
            later,
        );
    }
}

/// Calls and invitations are announced right now as at some moment that a wall clock shows; an
/// invitation counts as sent at that very moment.
pub proof fn fresh_calls_and_invitations_are_announced<N: Notifier>(
    c: CallInviteEvent,
    room: RoomFacts,
    i: MemberEvent,
    room_id: &str,
    display_name: Option<String>,
    config: Config,
    c_state: &mut DaemonState,
    c_notifier: &mut N,
    i_state: &mut DaemonState,
    i_notifier: &mut N,
)
    requires
        call_ensures(announce_call_invite::<N>, (&c, &room, c_state, c_notifier, &config), ()),
        call_ensures(
            announce_invite::<N>,
            (&i, room_id, &display_name, i_state, i_notifier, &config),
            (),
        ),
    ensures
        exists|now: LocalTime, ok: bool, later: int|
            shown(now) && later >= old(c_state)@.latest && #[trigger] carried_out(
                call_action(call_notif(c, room), config@, now),
                room.room_id@,
                old(c_notifier).requests(),
                final(c_notifier).requests(),
                old(c_state)@,
                final(c_state)@,
                ok,
                later,
            ),
        exists|now: LocalTime, ok: bool, later: int|
            shown(now) && later >= old(i_state)@.latest && #[trigger] carried_out(
                invite_action(
                    invite_notif(i, room_id@, display_name, now.timestamp as int),
                    config@,
                    now,
                ),
                room_id@,
                old(i_notifier).requests(),
                final(i_notifier).requests(),
                old(i_state)@,
                final(i_state)@,
                ok,
                later,
            ),
{
    let (c_now, c_ok, c_later) = choose|now: LocalTime, ok: bool, later: int|
        shown(now) && #[trigger] announced_plainly(
            call_action(call_notif(c, room), config@, now),
            room.room_id@,
            old(c_state)@,
            final(c_state)@,
            old(c_notifier).requests(),
            final(c_notifier).requests(),
            ok,
            later,
        );
    settling_carries_out(
        call_action(call_notif(c, room), config@, c_now),
        room.room_id@,
        old(c_notifier).requests(),
        old(c_state)@,
        c_ok,
        c_later,
    );
    let (i_now, i_ok, i_later) = choose|now: LocalTime, ok: bool, later: int|
        shown(now) && #[trigger] announced_plainly(
            invite_action(
                invite_notif(i, room_id@, display_name, now.timestamp as int),
                config@,
                now,
            ),
            room_id@,
            old(i_state)@,
            final(i_state)@,
            old(i_notifier).requests(),
            final(i_notifier).requests(),
            ok,
            later,
        );
    settling_carries_out(
        invite_action(
            invite_notif(i, room_id@, display_name, i_now.timestamp as int),
            config@,
            i_now,
        ),
        room_id@,
        old(i_notifier).requests(),
        old(i_state)@,
        i_ok,
        i_later,
    );
}

} // verus!
