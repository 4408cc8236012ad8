//! What the daemon does about the events of a sync: which of them it accepts, how it announces
//! those, and which notifications it dismisses.
//!
//! An event is accepted first; only for an accepted one is the room asked about, and with the
//! answers the event is announced.
use vstd::prelude::*;
use vstd::string::*;

use crate::clock::{local_now, shown, LocalTime};
use crate::config::{Config, ConfigView};
use crate::decide::{
    after_decision, call_action, decide_call_notif_at, decide_invite_notif_at,
    decide_message_notif_at, decide_reaction_notif_at, dispatch_action, invite_action, message_action, posted,
    reaction_action, settled, CallNotif, CallNotifView, InviteNotif, InviteNotifView,
    MessageNotif, MessageNotifView, NotifActionView, ReactionNotif, ReactionNotifView,
};
use crate::filters::{
    body_text, detect_highlights, format_body, highlights, EventKind, Mentions, MessageType,
};
use crate::ids::{localpart_of, UserId};
use crate::notification::{Notifier, Request};
use crate::state::{covered, entries_in, tags_of, DaemonState, DaemonStateView};
use crate::text::{copy_opt, join, opt_text, same_text, texts};

verus! {

/// What a room says about itself and about the sender of an event.
#[derive(Debug)]
pub struct RoomFacts {
    pub room_id: String,
    /// Whether it is a direct chat, where that is known.
    pub is_direct: Option<bool>,
    pub is_encrypted: bool,
    /// The name of the room, where it has one.
    pub display_name: Option<String>,
    /// The name of the sender in the room, where they are a member and have one.
    pub sender_display_name: Option<String>,
}

impl RoomFacts {
    /// Whether the room counts as a direct chat.
    pub open spec fn direct(&self) -> bool {
        self.is_direct == Some(true)
    }

    /// What the room is called: its name, or else its id.
    pub open spec fn name(&self) -> Seq<char> {
        name_or(self.display_name, self.room_id@)
    }

    /// What the sender is called: their name in the room, or else the localpart of their id.
    pub open spec fn sender_name(&self, sender: Seq<char>) -> Seq<char> {
        name_or(self.sender_display_name, localpart_of(sender))
    }

    /// Whether the room counts as a direct chat.
    fn known_direct(&self) -> (r: bool)
        ensures
            r == self.direct(),
    {
        match self.is_direct {
            Some(d) => d,
            None => false,
        }
    }

    /// What the room is called.
    fn called(&self) -> (r: String)
        ensures
            r@ == self.name(),
    {
        named(&self.display_name, self.room_id.as_str())
    }

    /// What the sender is called.
    fn sender_called(&self, sender: &UserId) -> (r: String)
        ensures
            r@ == self.sender_name(sender@),
    {
        named(&self.sender_display_name, sender.localpart())
    }
}

/// A name, or else another text.
pub open spec fn name_or(name: Option<String>, other: Seq<char>) -> Seq<char> {
    match name {
        Some(n) => n@,
        None => other,
    }
}

/// A name, or else another text.
fn named(name: &Option<String>, other: &str) -> (r: String)
    ensures
        r@ == name_or(*name, other@),
{
    match name {
        Some(n) => n.clone(),
        None => other.to_owned(),
    }
}

/// The seconds in a time given in milliseconds.
fn seconds(millis: u64) -> (r: i64)
    ensures
        r == millis / 1000,
{
    (millis / 1000) as i64
}

/// Whether the daemon listens to an event: the first sync is over, someone else sent it, and it
/// was not seen before.
pub open spec fn accepts(state: DaemonStateView, sender: Seq<char>, event_id: Seq<char>) -> bool {
    state.initial_sync_done && sender != state.own_user_id && state.is_new(event_id)
}

/// The state after an event came in: events of others are marked as seen once the first sync is
/// over.
pub open spec fn after_event(
    state: DaemonStateView,
    sender: Seq<char>,
    event_id: Seq<char>,
) -> DaemonStateView {
    if state.initial_sync_done && sender != state.own_user_id {
        state.marked_seen(event_id)
    } else {
        state
    }
}

/// Tells whether the daemon listens to an event, and marks it as seen.
fn accept(sender: &UserId, event_id: &str, state: &mut DaemonState) -> (r: bool)
    ensures
        r == accepts(old(state)@, sender@, event_id@),
        final(state)@ == after_event(old(state)@, sender@, event_id@),
        old(state)@.within_bounds() ==> final(state)@.within_bounds(),
{
    if same_text(sender.as_str(), state.own_user_id().as_str()) {
        return false;
    }
    if !state.is_initial_sync_done() {
        return false;
    }
    state.dedup(event_id)
}

/// A message or an edit.
#[derive(Debug)]
pub struct MessageEvent {
    pub event_id: String,
    pub sender: UserId,
    /// What it says; nothing once it is redacted.
    pub content: Option<MessageContent>,
}

/// What a message says.
#[derive(Debug)]
pub struct MessageContent {
    pub msgtype: MessageType,
    /// The text that its sender wrote; images and files have one, too.
    pub body: String,
    /// The message that it replaces.
    pub replaces: Option<String>,
    /// Whom it mentions, where its sender's client says so.
    pub mentions: Option<Mentions>,
    /// When it was sent, in milliseconds since the Unix epoch.
    pub origin_server_ts: u64,
}

/// Tells whether a message is to be announced at all, and marks it as seen. A redacted one is
/// not.
pub fn accept_message(ev: &MessageEvent, state: &mut DaemonState) -> (r: bool)
    ensures
        r == (accepts(old(state)@, ev.sender@, ev.event_id@) && ev.content is Some),
        final(state)@ == after_event(old(state)@, ev.sender@, ev.event_id@),
        old(state)@.within_bounds() ==> final(state)@.within_bounds(),
{
    if !accept(&ev.sender, ev.event_id.as_str(), state) {
        return false;
    }
    ev.content.is_some()
}

/// How a message reads in a notification, with the room's answers. Mentions and keywords are
/// looked for in what its sender wrote, whatever of it shows.
pub open spec fn message_notif(
    ev: MessageEvent,
    content: MessageContent,
    room: RoomFacts,
    state: DaemonStateView,
    config: ConfigView,
) -> MessageNotifView {
    let sender_name = room.sender_name(ev.sender@);
    let marks = highlights(
        content.body@,
        content.mentions,
        state.own_user_id,
        state.display_name,
        config.notifications.effective(room.room_id@, room.direct()).keywords,
    );
    MessageNotifView {
        kind: if content.replaces is Some {
            EventKind::Edit
        } else {
            EventKind::Message
        },
        sender: ev.sender@,
        sender_name,
        room_id: room.room_id@,
        room_name: room.name(),
        is_direct: room.direct(),
        is_encrypted: room.is_encrypted,
        mentions_you: marks.0,
        mentions_room: marks.1,
        matched_keyword: marks.2,
        event_ts_secs: (content.origin_server_ts / 1000) as int,
        event_id: ev.event_id@,
        edited_event_id: opt_text(content.replaces),
        body: body_text(content.msgtype, sender_name, config),
    }
}

/// Announces an accepted message at `now`, with `clock` on the daemon's monotonic clock: it is
/// described for the filters, decided about and dispatched. A redacted one is left alone.
pub fn announce_message_at<N: Notifier>(
    ev: &MessageEvent,
    room: &RoomFacts,
    state: &mut DaemonState,
    notifier: &mut N,
    config: &Config,
    now: LocalTime,
    clock: u128,
)
    ensures
        match ev.content {
            Some(content) => exists|ok: bool, later: int| #[trigger]
                announced(
                    message_action(
                        message_notif(*ev, content, *room, old(state)@, config@),
                        old(state)@,
                        config@,
                        now,
                        clock as int,
                    ),
                    room.room_id@,
                    old(state)@,
                    final(state)@,
                    old(notifier).requests(),
                    final(notifier).requests(),
                    clock as int,
                    ok,
                    later,
                ),
            None => final(state)@ == old(state)@ && final(notifier).requests() == old(notifier).requests(),
        },
        old(state)@.within_bounds() && clock >= old(state)@.latest ==> final(state)@.within_bounds(),
{
    let content = match &ev.content {
        Some(content) => content,
        None => return,
    };
    let ghost before = state@;
    let ghost requests = notifier.requests();
    let kind = if content.replaces.is_some() {
        EventKind::Edit
    } else {
        EventKind::Message
    };
    let is_direct = room.known_direct();
    let sender_name = room.sender_called(&ev.sender);
    let body = format_body(&content.msgtype, sender_name.as_str(), config);
    let effective = config.notifications.effective_for(room.room_id.as_str(), is_direct);
    let (mentions_you, mentions_room, matched_keyword) = detect_highlights(
        content.body.as_str(),
        &content.mentions,
        state.own_user_id(),
        state.display_name(),
        effective.keywords.as_slice(),
    );
    let n = MessageNotif {
        kind,
        sender: ev.sender.as_str().to_owned(),
        sender_name,
        room_id: room.room_id.clone(),
        room_name: room.called(),
        is_direct,
        is_encrypted: room.is_encrypted,
        mentions_you,
        mentions_room,
        matched_keyword,
        event_ts_secs: seconds(content.origin_server_ts),
        event_id: ev.event_id.clone(),
        edited_event_id: copy_opt(&content.replaces),
        body,
    };
    assert(n@ == message_notif(*ev, *content, *room, before, config@));
    let action = decide_message_notif_at(n, state, config, now, clock);
    let ghost decided = state@;
    let ghost act = action@;
    dispatch_action(action, notifier, state, room.room_id.as_str());
    proof {
        let (ok, later) = choose|ok: bool, later: int|
            later >= decided.latest && notifier.requests() == requests + #[trigger] posted(
                act,
                room.room_id@,
                ok,
            ) && state@ == #[trigger] settled(act, decided, room.room_id@, ok, later);
        assert(announced(
            act,
            room.room_id@,
            before,
            state@,
            requests,
            notifier.requests(),
            clock as int,
            ok,
            later,
        ));
    }
}

/// Announces an accepted message right now: it is described for the filters, decided about and
/// dispatched. A redacted one is left alone.
pub fn announce_message<N: Notifier>(
    ev: &MessageEvent,
    room: &RoomFacts,
    state: &mut DaemonState,
    notifier: &mut N,
    config: &Config,
)
    ensures
        match ev.content {
            Some(content) => exists|now: LocalTime, clock: int, ok: bool, later: int|
                shown(now) && clock >= old(state)@.latest && #[trigger] announced(
                    message_action(
                        message_notif(*ev, content, *room, old(state)@, config@),
                        old(state)@,
                        config@,
                        now,
                        clock,
                    ),
                    room.room_id@,
                    old(state)@,
                    final(state)@,
                    old(notifier).requests(),
                    final(notifier).requests(),
                    clock,
                    ok,
                    later,
                ),
            None => final(state)@ == old(state)@ && final(notifier).requests() == old(notifier).requests(),
        },
        old(state)@.within_bounds() ==> final(state)@.within_bounds(),
{
    let now = local_now();
    let clock: u128 = state.now();
    announce_message_at(ev, room, state, notifier, config, now, clock);
}

/// What announcing an event does: the decision starts the debounce window of the room anew, the
/// notification is posted, and where it was posted it is remembered.
pub open spec fn announced(
    action: NotifActionView,
    room_id: Seq<char>,
    state: DaemonStateView,
    state_after: DaemonStateView,
    requests: Seq<Request>,
    requests_after: Seq<Request>,
    clock: int,
    ok: bool,
    later: int,
) -> bool {
    let decided = after_decision(action, state, room_id, clock);
    &&& later >= decided.latest
    &&& requests_after == requests + posted(action, room_id, ok)
    &&& state_after == settled(action, decided, room_id, ok, later)
}

/// What announcing an event that starts no debounce window does.
pub open spec fn announced_plainly(
    action: NotifActionView,
    room_id: Seq<char>,
    state: DaemonStateView,
    state_after: DaemonStateView,
    requests: Seq<Request>,
    requests_after: Seq<Request>,
    ok: bool,
    later: int,
) -> bool {
    &&& later >= state.latest
    &&& requests_after == requests + posted(action, room_id, ok)
    &&& state_after == settled(action, state, room_id, ok, later)
}

/// What became of someone's membership.
#[derive(Debug, Clone, Copy, PartialEq, Eq, Structural)]
pub enum Membership {
    Invite,
    Other,
}

/// A change of membership in a room that the user is not in.
#[derive(Debug)]
pub struct MemberEvent {
    /// Whose membership changed.
    pub state_key: String,
    pub sender: UserId,
    pub membership: Membership,
}

/// Tells whether a change of membership is an invitation of the user, once the first sync is
/// over.
pub fn accept_invite(ev: &MemberEvent, state: &DaemonState) -> (r: bool)
    ensures
        r == (state@.initial_sync_done && ev.state_key@ == state@.own_user_id && ev.membership
            == Membership::Invite),
{
    if !state.is_initial_sync_done() {
        return false;
    }
    if !same_text(ev.state_key.as_str(), state.own_user_id().as_str()) {
        return false;
    }
    ev.membership == Membership::Invite
}

/// How an invitation reads in a notification.
pub open spec fn invite_notif(
    ev: MemberEvent,
    room_id: Seq<char>,
    display_name: Option<String>,
    event_ts_secs: int,
) -> InviteNotifView {
    InviteNotifView {
        sender: ev.sender@,
        sender_localpart: localpart_of(ev.sender@),
        room_id,
        room_name: name_or(display_name, room_id),
        event_ts_secs,
    }
}

/// Announces an accepted invitation at `now`, as one that was sent at `event_ts_secs`.
pub fn announce_invite_at<N: Notifier>(
    ev: &MemberEvent,
    room_id: &str,
    display_name: &Option<String>,
    state: &mut DaemonState,
    notifier: &mut N,
    config: &Config,
    event_ts_secs: i64,
    now: LocalTime,
)
    ensures
        exists|ok: bool, later: int| #[trigger]
            announced_plainly(
                invite_action(
                    invite_notif(*ev, room_id@, *display_name, event_ts_secs as int),
                    config@,
                    now,
                ),
                room_id@,
                old(state)@,
                final(state)@,
                old(notifier).requests(),
                final(notifier).requests(),
                ok,
                later,
            ),
        old(state)@.within_bounds() ==> final(state)@.within_bounds(),
{
    let ghost before = state@;
    let ghost requests = notifier.requests();
    let n = InviteNotif {
        sender: ev.sender.as_str().to_owned(),
        sender_localpart: ev.sender.localpart().to_owned(),
        room_id: room_id.to_owned(),
        room_name: named(display_name, room_id),
        event_ts_secs,
    };
    assert(n@ == invite_notif(*ev, room_id@, *display_name, event_ts_secs as int));
    let action = decide_invite_notif_at(n, config, now);
    let ghost act = action@;
    dispatch_action(action, notifier, state, room_id);
    proof {
        let (ok, later) = choose|ok: bool, later: int|
            later >= before.latest && notifier.requests() == requests + #[trigger] posted(
                act,
                room_id@,
                ok,
            ) && state@ == #[trigger] settled(act, before, room_id@, ok, later);
        assert(announced_plainly(
            act,
            room_id@,
            before,
            state@,
            requests,
            notifier.requests(),
            ok,
            later,
        ));
    }
}

/// Announces an accepted invitation right now. It carries no time of its own and counts as sent
/// at this very moment.
pub fn announce_invite<N: Notifier>(
    ev: &MemberEvent,
    room_id: &str,
    display_name: &Option<String>,
    state: &mut DaemonState,
    notifier: &mut N,
    config: &Config,
)
    ensures
        exists|now: LocalTime, ok: bool, later: int|
            shown(now) && #[trigger] announced_plainly(
                invite_action(
                    invite_notif(*ev, room_id@, *display_name, now.timestamp as int),
                    config@,
                    now,
                ),
                room_id@,
                old(state)@,
                final(state)@,
                old(notifier).requests(),
                final(notifier).requests(),
                ok,
                later,
            ),
        old(state)@.within_bounds() ==> final(state)@.within_bounds(),
{
    let now = local_now();
    announce_invite_at(ev, room_id, display_name, state, notifier, config, now.timestamp, now);
}

/// A reaction to a message.
#[derive(Debug)]
pub struct ReactionEvent {
    pub event_id: String,
    pub sender: UserId,
    /// The message reacted to.
    pub target_event_id: String,
    /// The reaction, mostly an emoji.
    pub key: String,
    /// When it was sent, in milliseconds since the Unix epoch.
    pub origin_server_ts: u64,
}

/// The message reacted to.
#[derive(Debug)]
pub struct TargetMessage {
    pub sender: UserId,
    pub msgtype: MessageType,
}

/// Tells whether a reaction is to be looked into, and marks it as seen. A redacted one, which
/// is given as none, is not.
pub fn accept_reaction(ev: &Option<ReactionEvent>, state: &mut DaemonState) -> (r: bool)
    ensures
        r == (ev is Some && accepts(old(state)@, ev->0.sender@, ev->0.event_id@)),
        final(state)@ == match *ev {
            Some(e) => after_event(old(state)@, e.sender@, e.event_id@),
            None => old(state)@,
        },
        old(state)@.within_bounds() ==> final(state)@.within_bounds(),
{
    match ev {
        Some(e) => accept(&e.sender, e.event_id.as_str(), state),
        None => false,
    }
}

/// Whether the message reacted to could be fetched and is the user's own.
pub open spec fn own_message(target: Option<TargetMessage>, state: DaemonStateView) -> bool {
    target is Some && target->0.sender@ == state.own_user_id
}

/// Tells whether the message reacted to could be fetched and is the user's own.
pub fn is_own_message(target: &Option<TargetMessage>, state: &DaemonState) -> (r: bool)
    ensures
        r == own_message(*target, state@),
{
    match target {
        Some(t) => same_text(t.sender.as_str(), state.own_user_id().as_str()),
        None => false,
    }
}

/// How a reaction reads in a notification, with the room's answers.
pub open spec fn reaction_notif(
    ev: ReactionEvent,
    target: TargetMessage,
    room: RoomFacts,
    config: ConfigView,
) -> ReactionNotifView {
    ReactionNotifView {
        reactor_user_id: ev.sender@,
        reactor_name: room.sender_name(ev.sender@),
        target_event_id: ev.target_event_id@,
        reaction_event_id: ev.event_id@,
        reaction_key: ev.key@,
        original_body: body_text(target.msgtype, localpart_of(target.sender@), config),
        is_direct: room.direct(),
        is_encrypted: room.is_encrypted,
        event_ts_secs: (ev.origin_server_ts / 1000) as int,
        room_id: room.room_id@,
    }
}

/// Announces an accepted reaction at `now`, with `clock` on the daemon's monotonic clock, where
/// the message reacted to is the user's own.
pub fn announce_reaction_at<N: Notifier>(
    ev: &ReactionEvent,
    target: &Option<TargetMessage>,
    room: &RoomFacts,
    state: &mut DaemonState,
    notifier: &mut N,
    config: &Config,
    now: LocalTime,
    clock: u128,
)
    ensures
        own_message(*target, old(state)@) ==> exists|ok: bool, later: int| #[trigger]
            announced(
                reaction_action(
                    reaction_notif(*ev, target->0, *room, config@),
                    old(state)@,
                    config@,
                    now,
                    clock as int,
                ),
                room.room_id@,
                old(state)@,
                final(state)@,
                old(notifier).requests(),
                final(notifier).requests(),
                clock as int,
                ok,
                later,
            ),
        !own_message(*target, old(state)@) ==> final(state)@ == old(state)@ && final(notifier).requests() == old(notifier).requests(),
        old(state)@.within_bounds() && clock >= old(state)@.latest ==> final(state)@.within_bounds(),
{
    if !is_own_message(target, state) {
        return;
    }
    let message = match target {
        Some(message) => message,
        None => return,
    };
    let ghost before = state@;
    let ghost requests = notifier.requests();
    let n = ReactionNotif {
        reactor_user_id: ev.sender.as_str().to_owned(),
        reactor_name: room.sender_called(&ev.sender),
        target_event_id: ev.target_event_id.clone(),
        reaction_event_id: ev.event_id.clone(),
        reaction_key: ev.key.clone(),
        original_body: format_body(&message.msgtype, message.sender.localpart(), config),
        is_direct: room.known_direct(),
        is_encrypted: room.is_encrypted,
        event_ts_secs: seconds(ev.origin_server_ts),
        room_id: room.room_id.clone(),
    };
    assert(n@ == reaction_notif(*ev, *message, *room, config@));
    let action = decide_reaction_notif_at(n, state, config, now, clock);
    let ghost decided = state@;
    let ghost act = action@;
    dispatch_action(action, notifier, state, room.room_id.as_str());
    proof {
        let (ok, later) = choose|ok: bool, later: int|
            later >= decided.latest && notifier.requests() == requests + #[trigger] posted(
                act,
                room.room_id@,
                ok,
            ) && state@ == #[trigger] settled(act, decided, room.room_id@, ok, later);
        assert(announced(
            act,
            room.room_id@,
            before,
            state@,
            requests,
            notifier.requests(),
            clock as int,
            ok,
            later,
        ));
    }
}

/// Announces an accepted reaction right now where the message reacted to is the user's own.
pub fn announce_reaction<N: Notifier>(
    ev: &ReactionEvent,
    target: &Option<TargetMessage>,
    room: &RoomFacts,
    state: &mut DaemonState,
    notifier: &mut N,
    config: &Config,
)
    ensures
        own_message(*target, old(state)@) ==> exists|
            now: LocalTime,
            clock: int,
            ok: bool,
            later: int,
        |
            shown(now) && clock >= old(state)@.latest && #[trigger] announced(
                reaction_action(
                    reaction_notif(*ev, target->0, *room, config@),
                    old(state)@,
                    config@,
                    now,
                    clock,
                ),
                room.room_id@,
                old(state)@,
                final(state)@,
                old(notifier).requests(),
                final(notifier).requests(),
                clock,
                ok,
                later,
            ),
        !own_message(*target, old(state)@) ==> final(state)@ == old(state)@ && final(notifier).requests() == old(notifier).requests(),
        old(state)@.within_bounds() ==> final(state)@.within_bounds(),
{
    let now = local_now();
    let clock: u128 = state.now();
    announce_reaction_at(ev, target, room, state, notifier, config, now, clock);
}

/// A call between two people that comes in.
#[derive(Debug)]
pub struct CallInviteEvent {
    pub event_id: String,
    pub sender: UserId,
    /// Whom it is for; without one it is for everyone in the room.
    pub invitee: Option<String>,
    pub call_id: String,
    /// When it was sent, in milliseconds since the Unix epoch.
    pub origin_server_ts: u64,
}

/// Tells whether a call is to be announced at all, and marks it as seen. One for someone else is
/// not, nor a redacted one, which is given as none.
pub fn accept_call_invite(ev: &Option<CallInviteEvent>, state: &mut DaemonState) -> (r: bool)
    ensures
        r == (ev is Some && accepts(old(state)@, ev->0.sender@, ev->0.event_id@) && (opt_text(
            ev->0.invitee,
        ) is Some ==> opt_text(ev->0.invitee) == Some(old(state)@.own_user_id))),
        final(state)@ == match *ev {
            Some(e) => after_event(old(state)@, e.sender@, e.event_id@),
            None => old(state)@,
        },
        old(state)@.within_bounds() ==> final(state)@.within_bounds(),
{
    match ev {
        Some(e) => {
            if !accept(&e.sender, e.event_id.as_str(), state) {
                return false;
            }
            match &e.invitee {
                Some(invitee) => same_text(invitee.as_str(), state.own_user_id().as_str()),
                None => true,
            }
        },
        None => false,
    }
}

/// How a call reads in a notification, with the room's answers.
pub open spec fn call_notif(ev: CallInviteEvent, room: RoomFacts) -> CallNotifView {
    CallNotifView {
        caller_user_id: ev.sender@,
        caller_name: room.sender_name(ev.sender@),
        call_id: ev.call_id@,
        call_event_id: ev.event_id@,
        is_direct: room.direct(),
        is_encrypted: room.is_encrypted,
        event_ts_secs: (ev.origin_server_ts / 1000) as int,
        room_id: room.room_id@,
    }
}

/// Announces an accepted call at `now`.
pub fn announce_call_invite_at<N: Notifier>(
    ev: &CallInviteEvent,
    room: &RoomFacts,
    state: &mut DaemonState,
    notifier: &mut N,
    config: &Config,
    now: LocalTime,
)
    ensures
        exists|ok: bool, later: int| #[trigger]
            announced_plainly(
                call_action(call_notif(*ev, *room), config@, now),
                room.room_id@,
                old(state)@,
                final(state)@,
                old(notifier).requests(),
                final(notifier).requests(),
                ok,
                later,
            ),
        old(state)@.within_bounds() ==> final(state)@.within_bounds(),
{
    let ghost before = state@;
    let ghost requests = notifier.requests();
    let n = CallNotif {
        caller_user_id: ev.sender.as_str().to_owned(),
        caller_name: room.sender_called(&ev.sender),
        call_id: ev.call_id.clone(),
        call_event_id: ev.event_id.clone(),
        is_direct: room.known_direct(),
        is_encrypted: room.is_encrypted,
        event_ts_secs: seconds(ev.origin_server_ts),
        room_id: room.room_id.clone(),
    };
    assert(n@ == call_notif(*ev, *room));
    let action = decide_call_notif_at(n, config, now);
    let ghost act = action@;
    dispatch_action(action, notifier, state, room.room_id.as_str());
    proof {
        let (ok, later) = choose|ok: bool, later: int|
            later >= before.latest && notifier.requests() == requests + #[trigger] posted(
                act,
                room.room_id@,
                ok,
            ) && state@ == #[trigger] settled(act, before, room.room_id@, ok, later);
        assert(announced_plainly(
            call_action(call_notif(*ev, *room), config@, now),
            room.room_id@,
            before,
            state@,
            requests,
            notifier.requests(),
            ok,
            later,
        ));
    }
}

/// Announces an accepted call right now.
pub fn announce_call_invite<N: Notifier>(
    ev: &CallInviteEvent,
    room: &RoomFacts,
    state: &mut DaemonState,
    notifier: &mut N,
    config: &Config,
)
    ensures
        exists|now: LocalTime, ok: bool, later: int|
            shown(now) && #[trigger] announced_plainly(
                call_action(call_notif(*ev, *room), config@, now),
                room.room_id@,
                old(state)@,
                final(state)@,
                old(notifier).requests(),
                final(notifier).requests(),
                ok,
                later,
            ),
        old(state)@.within_bounds() ==> final(state)@.within_bounds(),
{
    let now = local_now();
    announce_call_invite_at(ev, room, state, notifier, config, now);
}

/// The requests that dismissing tags makes of a notifier that answers `oks`.
pub open spec fn dismissals(tags: Seq<Seq<char>>, oks: Seq<bool>) -> Seq<Request> {
    Seq::new(tags.len(), |i: int| Request::Dismiss { tag: tags[i], ok: oks[i] })
}

/// Dismisses tags one after the other. One that cannot be dismissed does not stop the others.
fn dismiss_all<N: Notifier>(tags: &Vec<String>, notifier: &mut N)
    ensures
        exists|oks: Seq<bool>|
            oks.len() == tags@.len() && final(notifier).requests() == old(notifier).requests()
                + #[trigger] dismissals(texts(tags@), oks),
{
    let ghost before = notifier.requests();
    let ghost mut oks: Seq<bool> = Seq::empty();
    let mut i: usize = 0;
    assert(before + dismissals(texts(tags@).take(0), oks) =~= before);
    while i < tags.len()
        invariant
            i <= tags.len(),
            oks.len() == i,
            before == old(notifier).requests(),
            notifier.requests() == before + dismissals(texts(tags@).take(i as int), oks),
        decreases tags.len() - i,
    {
        let ghost so_far = notifier.requests();
        let r = notifier.dismiss(tags[i].as_str());
        proof {
            let grown = oks.push(r is Ok);
            assert(texts(tags@)[i as int] == tags@[i as int]@);
            assert(notifier.requests() =~= before + dismissals(
                texts(tags@).take(i + 1),
                grown,
            ));
            oks = grown;
        }
        i += 1;
    }
    assert(texts(tags@).take(i as int) =~= texts(tags@));
}

/// A read receipt of the user.
#[derive(Debug)]
pub struct Receipt {
    /// When it was sent, in milliseconds since the Unix epoch, where its client says so.
    pub ts: Option<u64>,
}

/// The read receipts of the user in an event: a public one and a private one.
#[derive(Debug)]
pub struct Receipts {
    pub read: Option<Receipt>,
    pub read_private: Option<Receipt>,
}

impl Receipts {
    /// The receipt that counts: the public one, or else the private one.
    pub open spec fn chosen(self) -> Option<Receipt> {
        if self.read is Some {
            self.read
        } else {
            self.read_private
        }
    }
}

/// The tags that a receipt dismisses: those of notifications for events up to its time, or all
/// of the room where it has none.
pub open spec fn receipt_tags(
    receipt: Receipt,
    room_id: Seq<char>,
    state: DaemonStateView,
) -> Seq<Seq<char>> {
    let entries = entries_in(state.history, room_id);
    match receipt.ts {
        Some(ts) => tags_of(covered(entries, (ts / 1000) as int)),
        None => tags_of(entries),
    }
}

/// The state after a receipt: what it dismisses is forgotten.
pub open spec fn after_receipt(
    receipt: Receipt,
    room_id: Seq<char>,
    state: DaemonStateView,
) -> DaemonStateView {
    match receipt.ts {
        Some(ts) => state.drained_up_to(room_id, (ts / 1000) as int),
        None => state.drained(room_id),
    }
}

/// Dismisses what a read receipt of the user covers, once the first sync is over.
pub fn handle_receipt<N: Notifier>(
    ev: &Receipts,
    room_id: &str,
    state: &mut DaemonState,
    notifier: &mut N,
)
    ensures
        match ev.chosen() {
            Some(receipt) if old(state)@.initial_sync_done => {
                &&& final(state)@ == after_receipt(receipt, room_id@, old(state)@)
                &&& exists|oks: Seq<bool>|
                    oks.len() == receipt_tags(receipt, room_id@, old(state)@).len() && final(notifier).requests() == old(notifier).requests() + #[trigger] dismissals(
                        receipt_tags(receipt, room_id@, old(state)@),
                        oks,
                    )
            },
            _ => final(state)@ == old(state)@ && final(notifier).requests() == old(notifier).requests(),
        },
        old(state)@.within_bounds() ==> final(state)@.within_bounds(),
{
    if !state.is_initial_sync_done() {
        return;
    }
    let receipt = match &ev.read {
        Some(receipt) => receipt,
        None => match &ev.read_private {
            Some(receipt) => receipt,
            None => return,
        },
    };
    let ghost before = state@;
    let tags = match receipt.ts {
        Some(ts) => state.drain_room_tags_up_to(room_id, seconds(ts)),
        None => state.drain_room_tags(room_id),
    };
    assert(texts(tags@) == receipt_tags(*receipt, room_id@, before));
    dismiss_all(&tags, notifier);
}

/// Dismisses the notification of a call that was hung up, once the first sync is over. A
/// redacted hangup is given as none.
pub fn handle_call_hangup<N: Notifier>(
    call_id: Option<&str>,
    room_id: &str,
    state: &mut DaemonState,
    notifier: &mut N,
)
    ensures
        match call_id {
            Some(id) if old(state)@.initial_sync_done && old(state)@.has_tag(
                room_id@,
                "call:"@ + id@,
            ) => {
                &&& final(state)@ == old(state)@.without(
                    room_id@,
                    old(state)@.position_of_tag(room_id@, "call:"@ + id@),
                )
                &&& exists|ok: bool|
                    final(notifier).requests() == #[trigger] old(notifier).requests().push(
                        Request::Dismiss { tag: "call:"@ + id@, ok },
                    )
            },
            _ => final(state)@ == old(state)@ && final(notifier).requests() == old(notifier).requests(),
        },
        old(state)@.within_bounds() ==> final(state)@.within_bounds(),
{
    if !state.is_initial_sync_done() {
        return;
    }
    let id = match call_id {
        Some(id) => id,
        None => return,
    };
    let tag = join("call:", id);
    if state.remove_by_tag(room_id, tag.as_str()) {
        let _ = notifier.dismiss(tag.as_str());
    }
}

/// A redaction. Where it names the redacted event depends on the version of the room.
#[derive(Debug)]
pub struct RedactionEvent {
    /// The redacted event as the content names it.
    pub content_redacts: Option<String>,
    /// The redacted event as the event itself names it.
    pub redacts: Option<String>,
}

impl RedactionEvent {
    /// The redacted event: as the content names it, or else as the event does.
    pub open spec fn redacted(self) -> Option<Seq<char>> {
        if self.content_redacts is Some {
            opt_text(self.content_redacts)
        } else {
            opt_text(self.redacts)
        }
    }
}

/// Dismisses the notification of an event that was redacted, once the first sync is over. A
/// redaction that was itself redacted is given as none.
pub fn handle_redaction<N: Notifier>(
    ev: &Option<RedactionEvent>,
    room_id: &str,
    state: &mut DaemonState,
    notifier: &mut N,
)
    ensures
        match *ev {
            Some(e) if old(state)@.initial_sync_done && e.redacted() is Some && old(state)@.tag_for(
                room_id@,
                e.redacted()->0,
            ) is Some => {
                &&& final(state)@ == old(state)@.without(
                    room_id@,
                    old(state)@.position_of_event(room_id@, e.redacted()->0),
                )
                &&& exists|ok: bool|
                    final(notifier).requests() == #[trigger] old(notifier).requests().push(
                        Request::Dismiss {
                            tag: old(state)@.tag_for(room_id@, e.redacted()->0)->0,
                            ok,
                        },
                    )
            },
            _ => final(state)@ == old(state)@ && final(notifier).requests() == old(notifier).requests(),
        },
        old(state)@.within_bounds() ==> final(state)@.within_bounds(),
{
    if !state.is_initial_sync_done() {
        return;
    }
    let event = match ev {
        Some(event) => event,
        None => return,
    };
    let redacted_id = match &event.content_redacts {
        Some(id) => id,
        None => match &event.redacts {
            Some(id) => id,
            None => return,
        },
    };
    let ghost before = notifier.requests();
    match state.remove_by_event_id(room_id, redacted_id.as_str()) {
        Some(tag) => {
            let dismissed = notifier.dismiss(tag.as_str());
            assert(event.redacted() == Some(redacted_id@));
            assert(notifier.requests() == before.push(
                Request::Dismiss {
                    tag: old(state)@.tag_for(room_id@, event.redacted()->0)->0,
                    ok: dismissed is Ok,
                },
            ));
        },
        None => {},
    }
}

} // verus!
