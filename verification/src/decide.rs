//! The decision whether and how an event is announced, and its dispatch.
use vstd::prelude::*;
use vstd::string::*;

use crate::clock::{local_now, shown, LocalTime};
use crate::config::{Config, ConfigView};
use crate::filters::{
    evaluate, truncate, truncated, verdict, EventContext, EventContextView, EventKind,
    FilterResult,
};
use crate::notification::{Notification, NotificationView, Notifier, Request};
use crate::state::{DaemonState, DaemonStateView};
use crate::text::{join, opt_text};

verus! {

/// What is to be done about an event.
#[derive(Debug, PartialEq)]
pub enum NotifAction {
    Suppress,
    Send {
        tag: String,
        title: String,
        subtitle: Option<String>,
        body: String,
        sound: Option<String>,
        replace: bool,
        /// What the notification is remembered by, for edits, redactions and read receipts.
        /// Invites are not remembered, nor are edits, which keep the tag of the original.
        track: Option<TrackedEvent>,
    },
}

/// The event that a notification announces.
#[derive(Debug, PartialEq)]
pub struct TrackedEvent {
    pub event_id: String,
    /// When the event was sent, in seconds since the Unix epoch.
    pub event_ts: i64,
}

/// What a `TrackedEvent` says.
#[verifier::ext_equal]
pub struct TrackedEventView {
    pub event_id: Seq<char>,
    pub event_ts: int,
}

impl View for TrackedEvent {
    type V = TrackedEventView;

    open spec fn view(&self) -> TrackedEventView {
        TrackedEventView { event_id: self.event_id@, event_ts: self.event_ts as int }
    }
}

/// What a `NotifAction` says.
#[verifier::ext_equal]
pub enum NotifActionView {
    Suppress,
    Send {
        tag: Seq<char>,
        title: Seq<char>,
        subtitle: Option<Seq<char>>,
        body: Seq<char>,
        sound: Option<Seq<char>>,
        replace: bool,
        track: Option<TrackedEventView>,
    },
}

/// What an optional `TrackedEvent` says.
pub open spec fn opt_tracked(t: Option<TrackedEvent>) -> Option<TrackedEventView> {
    match t {
        Some(t) => Some(t@),
        None => None,
    }
}

impl View for NotifAction {
    type V = NotifActionView;

    open spec fn view(&self) -> NotifActionView {
        match self {
            NotifAction::Suppress => NotifActionView::Suppress,
            NotifAction::Send { tag, title, subtitle, body, sound, replace, track } => {
                NotifActionView::Send {
                    tag: tag@,
                    title: title@,
                    subtitle: opt_text(*subtitle),
                    body: body@,
                    sound: opt_text(*sound),
                    replace: *replace,
                    track: opt_tracked(*track),
                }
            },
        }
    }
}

/// A message or an edit that came in.
#[derive(Debug)]
pub struct MessageNotif {
    pub kind: EventKind,
    pub sender: String,
    pub sender_name: String,
    pub room_id: String,
    pub room_name: String,
    pub is_direct: bool,
    pub is_encrypted: bool,
    pub mentions_you: bool,
    pub mentions_room: bool,
    pub matched_keyword: bool,
    pub event_ts_secs: i64,
    pub event_id: String,
    pub edited_event_id: Option<String>,
    pub body: String,
}

/// What a `MessageNotif` says.
#[verifier::ext_equal]
pub struct MessageNotifView {
    pub kind: EventKind,
    pub sender: Seq<char>,
    pub sender_name: Seq<char>,
    pub room_id: Seq<char>,
    pub room_name: Seq<char>,
    pub is_direct: bool,
    pub is_encrypted: bool,
    pub mentions_you: bool,
    pub mentions_room: bool,
    pub matched_keyword: bool,
    pub event_ts_secs: int,
    pub event_id: Seq<char>,
    pub edited_event_id: Option<Seq<char>>,
    pub body: Seq<char>,
}

impl View for MessageNotif {
    type V = MessageNotifView;

    open spec fn view(&self) -> MessageNotifView {
        MessageNotifView {
            kind: self.kind,
            sender: self.sender@,
            sender_name: self.sender_name@,
            room_id: self.room_id@,
            room_name: self.room_name@,
            is_direct: self.is_direct,
            is_encrypted: self.is_encrypted,
            mentions_you: self.mentions_you,
            mentions_room: self.mentions_room,
            matched_keyword: self.matched_keyword,
            event_ts_secs: self.event_ts_secs as int,
            event_id: self.event_id@,
            edited_event_id: opt_text(self.edited_event_id),
            body: self.body@,
        }
    }
}

impl MessageNotifView {
    /// What the filters look at.
    pub open spec fn context(self) -> EventContextView {
        EventContextView {
            kind: self.kind,
            sender: self.sender,
            room_id: self.room_id,
            is_direct: self.is_direct,
            is_encrypted: self.is_encrypted,
            mentions_you: self.mentions_you,
            mentions_room: self.mentions_room,
            matched_keyword: self.matched_keyword,
            event_ts_secs: self.event_ts_secs,
        }
    }

    /// The title: the sender of a direct message, otherwise the room.
    pub open spec fn title(self) -> Seq<char> {
        if self.is_direct {
            self.sender_name
        } else {
            self.room_name
        }
    }

    /// The subtitle: the sender, where the title does not name them.
    pub open spec fn subtitle(self) -> Option<Seq<char>> {
        if self.is_direct {
            None
        } else {
            Some(self.sender_name)
        }
    }

    /// The tag under which the edited message was announced.
    pub open spec fn original_tag(self, state: DaemonStateView) -> Option<Seq<char>> {
        match self.edited_event_id {
            Some(id) => state.tag_for(self.room_id, id),
            None => None,
        }
    }
}

/// An invitation to a room. It carries no time of its own; it counts as sent when it came in.
#[derive(Debug)]
pub struct InviteNotif {
    pub sender: String,
    pub sender_localpart: String,
    pub room_id: String,
    pub room_name: String,
    pub event_ts_secs: i64,
}

/// What a `InviteNotif` says.
#[verifier::ext_equal]
pub struct InviteNotifView {
    pub sender: Seq<char>,
    pub sender_localpart: Seq<char>,
    pub room_id: Seq<char>,
    pub room_name: Seq<char>,
    pub event_ts_secs: int,
}

impl View for InviteNotif {
    type V = InviteNotifView;

    open spec fn view(&self) -> InviteNotifView {
        InviteNotifView {
            sender: self.sender@,
            sender_localpart: self.sender_localpart@,
            room_id: self.room_id@,
            room_name: self.room_name@,
            event_ts_secs: self.event_ts_secs as int,
        }
    }
}

impl InviteNotifView {
    /// What the filters look at.
    pub open spec fn context(self) -> EventContextView {
        EventContextView {
            kind: EventKind::Invite,
            sender: self.sender,
            room_id: self.room_id,
            is_direct: false,
            is_encrypted: false,
            mentions_you: false,
            mentions_room: false,
            matched_keyword: false,
            event_ts_secs: self.event_ts_secs,
        }
    }
}

/// A reaction to a message of the user.
#[derive(Debug)]
pub struct ReactionNotif {
    pub reactor_user_id: String,
    pub reactor_name: String,
    pub target_event_id: String,
    pub reaction_event_id: String,
    pub reaction_key: String,
    pub original_body: String,
    pub is_direct: bool,
    pub is_encrypted: bool,
    pub event_ts_secs: i64,
    pub room_id: String,
}

/// What a `ReactionNotif` says.
#[verifier::ext_equal]
pub struct ReactionNotifView {
    pub reactor_user_id: Seq<char>,
    pub reactor_name: Seq<char>,
    pub target_event_id: Seq<char>,
    pub reaction_event_id: Seq<char>,
    pub reaction_key: Seq<char>,
    pub original_body: Seq<char>,
    pub is_direct: bool,
    pub is_encrypted: bool,
    pub event_ts_secs: int,
    pub room_id: Seq<char>,
}

impl View for ReactionNotif {
    type V = ReactionNotifView;

    open spec fn view(&self) -> ReactionNotifView {
        ReactionNotifView {
            reactor_user_id: self.reactor_user_id@,
            reactor_name: self.reactor_name@,
            target_event_id: self.target_event_id@,
            reaction_event_id: self.reaction_event_id@,
            reaction_key: self.reaction_key@,
            original_body: self.original_body@,
            is_direct: self.is_direct,
            is_encrypted: self.is_encrypted,
            event_ts_secs: self.event_ts_secs as int,
            room_id: self.room_id@,
        }
    }
}

impl ReactionNotifView {
    /// What the filters look at.
    pub open spec fn context(self) -> EventContextView {
        EventContextView {
            kind: EventKind::Reaction,
            sender: self.reactor_user_id,
            room_id: self.room_id,
            is_direct: self.is_direct,
            is_encrypted: self.is_encrypted,
            mentions_you: false,
            mentions_room: false,
            matched_keyword: false,
            event_ts_secs: self.event_ts_secs,
        }
    }
}

/// A call between two people that came in.
#[derive(Debug)]
pub struct CallNotif {
    pub caller_user_id: String,
    pub caller_name: String,
    pub call_id: String,
    pub call_event_id: String,
    pub is_direct: bool,
    pub is_encrypted: bool,
    pub event_ts_secs: i64,
    pub room_id: String,
}

/// What a `CallNotif` says.
#[verifier::ext_equal]
pub struct CallNotifView {
    pub caller_user_id: Seq<char>,
    pub caller_name: Seq<char>,
    pub call_id: Seq<char>,
    pub call_event_id: Seq<char>,
    pub is_direct: bool,
    pub is_encrypted: bool,
    pub event_ts_secs: int,
    pub room_id: Seq<char>,
}

impl View for CallNotif {
    type V = CallNotifView;

    open spec fn view(&self) -> CallNotifView {
        CallNotifView {
            caller_user_id: self.caller_user_id@,
            caller_name: self.caller_name@,
            call_id: self.call_id@,
            call_event_id: self.call_event_id@,
            is_direct: self.is_direct,
            is_encrypted: self.is_encrypted,
            event_ts_secs: self.event_ts_secs as int,
            room_id: self.room_id@,
        }
    }
}

impl CallNotifView {
    /// What the filters look at.
    pub open spec fn context(self) -> EventContextView {
        EventContextView {
            kind: EventKind::Call,
            sender: self.caller_user_id,
            room_id: self.room_id,
            is_direct: self.is_direct,
            is_encrypted: self.is_encrypted,
            mentions_you: false,
            mentions_room: false,
            matched_keyword: false,
            event_ts_secs: self.event_ts_secs,
        }
    }
}

/// The configured sound where a notification sounds.
pub open spec fn sound_if(sounds: bool, config: ConfigView) -> Option<Seq<char>> {
    if sounds {
        Some(config.notifications.sound)
    } else {
        None
    }
}

/// Whether a notification sounds: the filters ask for sound, and the debounce window of the
/// room is over or its sender is listed.
pub open spec fn sounds(
    ctx: EventContextView,
    asked: bool,
    state: DaemonStateView,
    config: ConfigView,
    clock: int,
) -> bool {
    state.sound_after_debounce(
        ctx.room_id,
        config.notifications.effective(ctx.room_id, ctx.is_direct).noisy_debounce_seconds as int,
        config.notifications.senders.lists(ctx.sender),
        asked,
        clock,
    )
}

/// What is done about a message. An edit takes the tag of the message that it edits; where that
/// message was not announced, nothing is done.
pub open spec fn message_action(
    n: MessageNotifView,
    state: DaemonStateView,
    config: ConfigView,
    now: LocalTime,
    clock: int,
) -> NotifActionView {
    match verdict(n.context(), config, now) {
        FilterResult::Suppress => NotifActionView::Suppress,
        FilterResult::Replace => match n.original_tag(state) {
            Some(tag) => NotifActionView::Send {
                tag,
                title: n.title(),
                subtitle: n.subtitle(),
                body: n.body,
                sound: None,
                replace: true,
                track: None,
            },
            None => NotifActionView::Suppress,
        },
        FilterResult::Notify { sound } => {
            let sound = sound_if(sounds(n.context(), sound, state, config, clock), config);
            if n.kind == EventKind::Edit {
                match n.original_tag(state) {
                    Some(tag) => NotifActionView::Send {
                        tag,
                        title: n.sender_name + " edited their message"@,
                        subtitle: n.subtitle(),
                        body: n.body,
                        sound,
                        replace: false,
                        track: None,
                    },
                    None => NotifActionView::Suppress,
                }
            } else {
                NotifActionView::Send {
                    tag: "msg:"@ + n.event_id,
                    title: n.title(),
                    subtitle: n.subtitle(),
                    body: n.body,
                    sound,
                    replace: false,
                    track: Some(
                        TrackedEventView { event_id: n.event_id, event_ts: n.event_ts_secs },
                    ),
                }
            }
        },
    }
}

/// The state after a decision: the debounce window of the room starts anew where the event is
/// announced as a new notification.
pub open spec fn after_decision(
    action: NotifActionView,
    state: DaemonStateView,
    room_id: Seq<char>,
    clock: int,
) -> DaemonStateView {
    match action {
        NotifActionView::Send { replace: false, .. } => state.notified(room_id, clock),
        _ => state,
    }
}

/// What is done about an invitation.
pub open spec fn invite_action(n: InviteNotifView, config: ConfigView, now: LocalTime) -> NotifActionView {
    match verdict(n.context(), config, now) {
        FilterResult::Notify { sound } => NotifActionView::Send {
            tag: "invite:"@ + n.room_id,
            title: "invite to "@ + n.room_name,
            subtitle: Some("from "@ + n.sender_localpart),
            body: ""@,
            sound: sound_if(sound, config),
            replace: false,
            track: None,
        },
        _ => NotifActionView::Suppress,
    }
}

/// What is done about a reaction.
pub open spec fn reaction_action(
    n: ReactionNotifView,
    state: DaemonStateView,
    config: ConfigView,
    now: LocalTime,
    clock: int,
) -> NotifActionView {
    match verdict(n.context(), config, now) {
        FilterResult::Notify { sound } => NotifActionView::Send {
            tag: "react:"@ + n.target_event_id,
            title: n.reactor_name + " reacted "@ + n.reaction_key,
            subtitle: None,
            body: truncated(n.original_body, config.behavior.max_body_length),
            sound: sound_if(sounds(n.context(), sound, state, config, clock), config),
            replace: false,
            track: Some(
                TrackedEventView { event_id: n.reaction_event_id, event_ts: n.event_ts_secs },
            ),
        },
        _ => NotifActionView::Suppress,
    }
}

/// What is done about a call.
pub open spec fn call_action(n: CallNotifView, config: ConfigView, now: LocalTime) -> NotifActionView {
    match verdict(n.context(), config, now) {
        FilterResult::Notify { sound } => NotifActionView::Send {
            tag: "call:"@ + n.call_id,
            title: "incoming call from "@ + n.caller_name,
            subtitle: None,
            body: ""@,
            sound: sound_if(sound, config),
            replace: false,
            track: Some(
                TrackedEventView { event_id: n.call_event_id, event_ts: n.event_ts_secs },
            ),
        },
        _ => NotifActionView::Suppress,
    }
}

/// The configured sound where a notification sounds.
fn sound_for(sounds: bool, config: &Config) -> (r: Option<String>)
    ensures
        opt_text(r) == sound_if(sounds, config@),
{
    if sounds {
        Some(config.notifications.sound.clone())
    } else {
        None
    }
}

/// Decides what is done about a message that comes in at `now`, with `clock` on the daemon's
/// monotonic clock. The notification itself is remembered only once it is posted.
pub fn decide_message_notif_at(
    n: MessageNotif,
    state: &mut DaemonState,
    config: &Config,
    now: LocalTime,
    clock: u128,
) -> (r: NotifAction)
    ensures
        r@ == message_action(n@, old(state)@, config@, now, clock as int),
        final(state)@ == after_decision(r@, old(state)@, n.room_id@, clock as int),
        old(state)@.within_bounds() && clock >= old(state)@.latest ==> final(state)@.within_bounds(),
{
    let ctx = EventContext {
        kind: n.kind,
        sender: n.sender.clone(),
        room_id: n.room_id.clone(),
        is_direct: n.is_direct,
        is_encrypted: n.is_encrypted,
        mentions_you: n.mentions_you,
        mentions_room: n.mentions_room,
        matched_keyword: n.matched_keyword,
        event_ts_secs: n.event_ts_secs,
    };
    assert(ctx@ == n@.context());
    let result = evaluate(&ctx, config, now);
    let effective = config.notifications.effective_for(n.room_id.as_str(), n.is_direct);
    let (title, subtitle) = if n.is_direct {
        (n.sender_name.clone(), None)
    } else {
        (n.room_name.clone(), Some(n.sender_name.clone()))
    };
    match result {
        FilterResult::Suppress => NotifAction::Suppress,
        FilterResult::Replace => {
            let orig_id = match &n.edited_event_id {
                Some(id) => id,
                None => return NotifAction::Suppress,
            };
            match state.lookup_tag(n.room_id.as_str(), orig_id.as_str()) {
                Some(tag) => NotifAction::Send {
                    tag,
                    title,
                    subtitle,
                    body: n.body,
                    sound: None,
                    replace: true,
                    track: None,
                },
                None => NotifAction::Suppress,
            }
        },
        FilterResult::Notify { sound: play_sound } => {
            let (tag, track, title) = if n.kind == EventKind::Edit {
                let orig_id = match &n.edited_event_id {
                    Some(id) => id,
                    None => return NotifAction::Suppress,
                };
                match state.lookup_tag(n.room_id.as_str(), orig_id.as_str()) {
                    Some(tag) => (
                        tag,
                        None,
                        join(n.sender_name.as_str(), " edited their message"),
                    ),
                    None => return NotifAction::Suppress,
                }
            } else {
                let track = TrackedEvent { event_id: n.event_id.clone(), event_ts: n.event_ts_secs };
                (join("msg:", n.event_id.as_str()), Some(track), title)
            };
            let final_sound = state.apply_debounce_at(
                n.room_id.as_str(),
                effective.noisy_debounce_seconds,
                config.notifications.senders.contains(n.sender.as_str()),
                play_sound,
                clock,
            );
            NotifAction::Send {
                tag,
                title,
                subtitle,
                body: n.body,
                sound: sound_for(final_sound, config),
                replace: false,
                track,
            }
        },
    }
}

/// Decides what is done about a message that comes in right now. The notification itself is
/// remembered only once it is posted.
pub fn decide_message_notif(n: MessageNotif, state: &mut DaemonState, config: &Config) -> (r:
    NotifAction)
    ensures
        exists|now: LocalTime, clock: int|
            shown(now) && clock >= old(state)@.latest && r@ == #[trigger] message_action(n@, old(state)@, config@, now, clock) && final(state)@
                == after_decision(r@, old(state)@, n.room_id@, clock),
        old(state)@.within_bounds() ==> final(state)@.within_bounds(),
{
    let now = local_now();
    let clock: u128 = state.now();
    decide_message_notif_at(n, state, config, now, clock)
}

/// Decides what is done about an invitation that comes in at `now`.
pub fn decide_invite_notif_at(n: InviteNotif, config: &Config, now: LocalTime) -> (r: NotifAction)
    ensures
        r@ == invite_action(n@, config@, now),
{
    let ctx = EventContext {
        kind: EventKind::Invite,
        sender: n.sender.clone(),
        room_id: n.room_id.clone(),
        is_direct: false,
        is_encrypted: false,
        mentions_you: false,
        mentions_room: false,
        matched_keyword: false,
        event_ts_secs: n.event_ts_secs,
    };
    assert(ctx@ == n@.context());
    match evaluate(&ctx, config, now) {
        FilterResult::Notify { sound } => NotifAction::Send {
            tag: join("invite:", n.room_id.as_str()),
            title: join("invite to ", n.room_name.as_str()),
            subtitle: Some(join("from ", n.sender_localpart.as_str())),
            body: "".to_owned(),
            sound: sound_for(sound, config),
            replace: false,
            track: None,
        },
        _ => NotifAction::Suppress,
    }
}

/// Decides what is done about an invitation that comes in right now.
pub fn decide_invite_notif(n: InviteNotif, config: &Config) -> (r: NotifAction)
    ensures
        exists|now: LocalTime| shown(now) && r@ == #[trigger] invite_action(n@, config@, now),
{
    let now = local_now();
    decide_invite_notif_at(n, config, now)
}

/// Decides what is done about a reaction that comes in at `now`, with `clock` on the daemon's
/// monotonic clock.
pub fn decide_reaction_notif_at(
    n: ReactionNotif,
    state: &mut DaemonState,
    config: &Config,
    now: LocalTime,
    clock: u128,
) -> (r: NotifAction)
    ensures
        r@ == reaction_action(n@, old(state)@, config@, now, clock as int),
        final(state)@ == after_decision(r@, old(state)@, n.room_id@, clock as int),
        old(state)@.within_bounds() && clock >= old(state)@.latest ==> final(state)@.within_bounds(),
{
    let ctx = EventContext {
        kind: EventKind::Reaction,
        sender: n.reactor_user_id.clone(),
        room_id: n.room_id.clone(),
        is_direct: n.is_direct,
        is_encrypted: n.is_encrypted,
        mentions_you: false,
        mentions_room: false,
        matched_keyword: false,
        event_ts_secs: n.event_ts_secs,
    };
    assert(ctx@ == n@.context());
    let play_sound = match evaluate(&ctx, config, now) {
        FilterResult::Notify { sound } => sound,
        _ => return NotifAction::Suppress,
    };
    let body = truncate(n.original_body.as_str(), config.behavior.max_body_length);
    let effective = config.notifications.effective_for(n.room_id.as_str(), n.is_direct);
    let final_sound = state.apply_debounce_at(
        n.room_id.as_str(),
        effective.noisy_debounce_seconds,
        config.notifications.senders.contains(n.reactor_user_id.as_str()),
        play_sound,
        clock,
    );
    NotifAction::Send {
        tag: join("react:", n.target_event_id.as_str()),
        title: join(n.reactor_name.as_str(), " reacted ").concat(n.reaction_key.as_str()),
        subtitle: None,
        body,
        sound: sound_for(final_sound, config),
        replace: false,
        track: Some(TrackedEvent { event_id: n.reaction_event_id, event_ts: n.event_ts_secs }),
    }
}

/// Decides what is done about a reaction that comes in right now.
pub fn decide_reaction_notif(n: ReactionNotif, state: &mut DaemonState, config: &Config) -> (r:
    NotifAction)
    ensures
        exists|now: LocalTime, clock: int|
            shown(now) && clock >= old(state)@.latest && r@ == #[trigger] reaction_action(n@, old(state)@, config@, now, clock) && final(state)@
                == after_decision(r@, old(state)@, n.room_id@, clock),
        old(state)@.within_bounds() ==> final(state)@.within_bounds(),
{
    let now = local_now();
    let clock: u128 = state.now();
    decide_reaction_notif_at(n, state, config, now, clock)
}

/// Decides what is done about a call that comes in at `now`.
pub fn decide_call_notif_at(n: CallNotif, config: &Config, now: LocalTime) -> (r: NotifAction)
    ensures
        r@ == call_action(n@, config@, now),
{
    let ctx = EventContext {
        kind: EventKind::Call,
        sender: n.caller_user_id.clone(),
        room_id: n.room_id.clone(),
        is_direct: n.is_direct,
        is_encrypted: n.is_encrypted,
        mentions_you: false,
        mentions_room: false,
        matched_keyword: false,
        event_ts_secs: n.event_ts_secs,
    };
    assert(ctx@ == n@.context());
    match evaluate(&ctx, config, now) {
        FilterResult::Notify { sound } => NotifAction::Send {
            tag: join("call:", n.call_id.as_str()),
            title: join("incoming call from ", n.caller_name.as_str()),
            subtitle: None,
            body: "".to_owned(),
            sound: sound_for(sound, config),
            replace: false,
            track: Some(TrackedEvent { event_id: n.call_event_id, event_ts: n.event_ts_secs }),
        },
        _ => NotifAction::Suppress,
    }
}

/// Decides what is done about a call that comes in right now.
pub fn decide_call_notif(n: CallNotif, config: &Config) -> (r: NotifAction)
    ensures
        exists|now: LocalTime| shown(now) && r@ == #[trigger] call_action(n@, config@, now),
{
    let now = local_now();
    decide_call_notif_at(n, config, now)
}

/// The notification that an action posts.
pub open spec fn outgoing(action: NotifActionView, room_id: Seq<char>) -> Option<NotificationView> {
    match action {
        NotifActionView::Suppress => None,
        NotifActionView::Send { tag, title, subtitle, body, sound, replace, track } => Some(
            NotificationView { tag, title, subtitle, body, sound, thread_id: room_id, replace },
        ),
    }
}

/// The requests that an action makes of a notifier that answers `ok`.
pub open spec fn posted(action: NotifActionView, room_id: Seq<char>, ok: bool) -> Seq<Request> {
    match outgoing(action, room_id) {
        Some(notification) => seq![Request::Send { notification, ok }],
        None => Seq::empty(),
    }
}

/// The state after an action: a notification that was posted is remembered where it is to be
/// tracked.
pub open spec fn settled(
    action: NotifActionView,
    state: DaemonStateView,
    room_id: Seq<char>,
    ok: bool,
    clock: int,
) -> DaemonStateView {
    match action {
        NotifActionView::Send { tag, track: Some(t), .. } if ok => state.recorded(
            room_id,
            tag,
            t.event_id,
            t.event_ts,
            clock,
        ),
        _ => state,
    }
}

/// Remembers a notification once its delivery, at `clock`, has succeeded or failed.
pub fn settle_at(
    tag: String,
    track: Option<TrackedEvent>,
    ok: bool,
    state: &mut DaemonState,
    room_id: &str,
    clock: u128,
)
    ensures
        final(state)@ == match track {
            Some(t) if ok => old(state)@.recorded(
                room_id@,
                tag@,
                t.event_id@,
                t.event_ts as int,
                clock as int,
            ),
            _ => old(state)@,
        },
        old(state)@.within_bounds() && clock >= old(state)@.latest ==> final(state)@.within_bounds(),
{
    if ok {
        if let Some(t) = track {
            state.record_notif_at(room_id, tag, t.event_id, t.event_ts, clock);
        }
    }
}

/// Carries out an action: posts its notification, grouped by room, and remembers it where it was
/// posted and is to be tracked.
pub fn dispatch_action<N: Notifier>(
    action: NotifAction,
    notifier: &mut N,
    state: &mut DaemonState,
    room_id: &str,
)
    ensures
        exists|ok: bool, clock: int|
            clock >= old(state)@.latest && final(notifier).requests() == old(notifier).requests() + #[trigger] posted(
                action@,
                room_id@,
                ok,
            ) && final(state)@ == #[trigger] settled(action@, old(state)@, room_id@, ok, clock),
        old(state)@.within_bounds() ==> final(state)@.within_bounds(),
{
    let ghost act = action@;
    let ghost before = notifier.requests();
    let ghost state_before = state@;
    match action {
        NotifAction::Suppress => {
            assert(before + posted(act, room_id@, true) =~= before);
            assert(settled(act, state_before, room_id@, true, state_before.latest)
                == state_before);
        },
        NotifAction::Send { tag, title, subtitle, body, sound, replace, track } => {
            let notification = Notification {
                tag: tag.clone(),
                title,
                subtitle,
                body,
                sound,
                thread_id: room_id.to_owned(),
                replace,
            };
            let sent = notifier.send(&notification);
            let ok = sent.is_ok();
            let clock: u128 = state.now();
            settle_at(tag, track, ok, state, room_id, clock);
            assert(before + posted(act, room_id@, ok) =~= before.push(
                Request::Send { notification: notification@, ok },
            ));
            assert(state@ == settled(act, state_before, room_id@, ok, clock as int));
        },
    }
}

} // verus!
