//! Laws of the filters and of highlights.
use vstd::prelude::*;

use crate::clock::LocalTime;
use crate::config::{
    ConfigView, EditMode, NotificationConfigView, NotifyLevel, QuietHoursView, RoomConfigView,
    RoomOverrideView, RoomsSectionView,
};
use crate::filters::{
    at_level, has_keyword, highlights, in_window, level_of_message, names_room, names_user, quiet,
    too_old, truncated, verdict, EventContextView, EventKind, FilterResult, Mentions,
};
use crate::handlers::{
    invite_notif, message_notif, MemberEvent, MessageContent, MessageEvent, RoomFacts,
};
use crate::laws::settings::override_bears_on_its_room_alone;
use crate::state::DaemonStateView;
use crate::text::{lowercase, texts};

verus! {

/// Nothing is announced while notifications are disabled, nor is anything too old.
pub proof fn disabled_or_old_is_suppressed(ctx: EventContextView, config: ConfigView, now: LocalTime)
    requires
        !config.notifications.enabled || too_old(ctx.event_ts_secs, config, now),
    ensures
        verdict(ctx, config, now) == FilterResult::Suppress,
{
}

/// The sender lists beat quiet hours and whatever the room says: off before silent before noisy.
pub proof fn sender_lists_come_first(ctx: EventContextView, config: ConfigView, now: LocalTime)
    requires
        config.notifications.enabled,
        !too_old(ctx.event_ts_secs, config, now),
        config.notifications.senders.lists(ctx.sender),
    ensures
        ({
            let senders = config.notifications.senders;
            let r = verdict(ctx, config, now);
            &&& senders.off.contains(ctx.sender) ==> r == FilterResult::Suppress
            &&& !senders.off.contains(ctx.sender) && senders.silent.contains(ctx.sender) ==> r == (
            FilterResult::Notify { sound: false })
            &&& !senders.off.contains(ctx.sender) && !senders.silent.contains(ctx.sender) ==> r == (
            FilterResult::Notify { sound: true })
        }),
{
}

/// Quiet hours suppress everything from senders that are not listed.
pub proof fn quiet_hours_suppress_the_unlisted(
    ctx: EventContextView,
    config: ConfigView,
    now: LocalTime,
)
    requires
        !config.notifications.senders.lists(ctx.sender),
        quiet(config.behavior.quiet_hours, now.second_of_day),
    ensures
        verdict(ctx, config, now) == FilterResult::Suppress,
{
}

/// From a muted room nothing but an invitation is announced, unless its sender is listed.
pub proof fn muted_room_is_suppressed(
    ctx: EventContextView,
    config: ConfigView,
    now: LocalTime,
)
    requires
        config.notifications.rooms.overrides.contains_key(ctx.room_id),
        config.notifications.rooms.overrides[ctx.room_id].mute,
        !config.notifications.senders.lists(ctx.sender),
        ctx.kind != EventKind::Invite,
    ensures
        verdict(ctx, config, now) == FilterResult::Suppress,
{
}

/// Only an edit can ask for a replacement.
pub proof fn only_edits_replace(ctx: EventContextView, config: ConfigView, now: LocalTime)
    ensures
        verdict(ctx, config, now) == FilterResult::Replace ==> ctx.kind == EventKind::Edit,
{
}

/// An override for a room bears on no event of another room: the filters say of such an event what
/// they said without it.
pub proof fn verdict_ignores_other_rooms(
    ctx: EventContextView,
    config: ConfigView,
    overridden: Seq<char>,
    o: RoomOverrideView,
    now: LocalTime,
)
    requires
        ctx.room_id != overridden,
    ensures
        verdict(
            ctx,
            ConfigView {
                notifications: NotificationConfigView {
                    rooms: RoomsSectionView {
                        overrides: config.notifications.rooms.overrides.insert(overridden, o),
                        ..config.notifications.rooms
                    },
                    ..config.notifications
                },
                ..config
            },
            now,
        ) == verdict(ctx, config, now),
{
    override_bears_on_its_room_alone(
        config.notifications,
        overridden,
        o,
        ctx.room_id,
        ctx.is_direct,
    );
}

/// A mention or a keyword can make a message louder and never quieter.
pub proof fn highlights_only_raise(ctx: EventContextView, plain: EventContextView, room: RoomConfigView)
    requires
        plain == (EventContextView {
            mentions_you: plain.mentions_you,
            mentions_room: plain.mentions_room,
            matched_keyword: plain.matched_keyword,
            ..ctx
        }),
        plain.mentions_you ==> ctx.mentions_you,
        plain.mentions_room ==> ctx.mentions_room,
        plain.matched_keyword ==> ctx.matched_keyword,
    ensures
        level_of_message(ctx, room).volume() >= level_of_message(plain, room).volume(),
{
}

/// A message is as loud as the loudest setting that applies to it.
pub proof fn message_takes_the_loudest(ctx: EventContextView, room: RoomConfigView)
    ensures
        ({
            let level = level_of_message(ctx, room);
            let base = if ctx.is_encrypted {
                room.encrypted
            } else {
                room.unencrypted
            };
            &&& level.volume() >= base.volume()
            &&& ctx.mentions_you ==> level.volume() >= room.mentions_you.volume()
            &&& ctx.mentions_room ==> level.volume() >= room.mentions_room.volume()
            &&& ctx.matched_keyword ==> level.volume() >= room.keyword_match.volume()
            &&& level == base || (ctx.mentions_you && level == room.mentions_you) || (
            ctx.mentions_room && level == room.mentions_room) || (ctx.matched_keyword && level
                == room.keyword_match)
        }),
{
}

/// Two ends split the day: every second lies in exactly one of the window between them and the
/// window across midnight.
pub proof fn windows_split_the_day(start: u32, end: u32, second: u32)
    requires
        start != end,
    ensures
        in_window(start, end, second) != in_window(end, start, second),
        in_window(start, end, start),
        !in_window(start, end, end),
{
}

/// Quiet hours that end where they begin never hold, nor do disabled ones.
pub proof fn empty_quiet_hours_never_hold(hours: QuietHoursView, second: u32)
    requires
        !hours.enabled || crate::clock::clock_time(hours.start) == crate::clock::clock_time(
            hours.end,
        ),
    ensures
        !quiet(hours, second),
{
}

/// A cut text keeps its beginning, and grows by no more than the dots.
pub proof fn truncation_keeps_the_beginning(s: Seq<char>, max: nat)
    ensures
        truncated(s, max).len() <= max + 3,
        s.len() <= max ==> truncated(s, max) == s,
        s.len() > max ==> truncated(s, max).take(max as int) == s.take(max as int)
            && truncated(s, max).len() == max + 3,
{
    reveal_strlit("...");
    if s.len() > max {
        assert(truncated(s, max).take(max as int) =~= s.take(max as int));
    }
}

/// Upper and lower case make no difference to what a body mentions or matches.
pub proof fn highlights_ignore_case(
    body: Seq<char>,
    other: Seq<char>,
    mentions: Option<Mentions>,
    own_user_id: Seq<char>,
    display_name: Option<Seq<char>>,
    keywords: Seq<Seq<char>>,
    other_keywords: Seq<Seq<char>>,
)
    requires
        lowercase(body) == lowercase(other),
        keywords.len() == other_keywords.len(),
        forall|i: int|
            0 <= i < keywords.len() ==> lowercase(#[trigger] keywords[i]) == lowercase(
                other_keywords[i],
            ),
    ensures
        highlights(body, mentions, own_user_id, display_name, keywords) == highlights(
            other,
            mentions,
            own_user_id,
            display_name,
            other_keywords,
        ),
{
    if has_keyword(body, keywords) {
        let i = choose|i: int|
            0 <= i < keywords.len() && crate::text::occurs(
                lowercase(body),
                lowercase(#[trigger] keywords[i]),
            );
        assert(crate::text::occurs(lowercase(other), lowercase(other_keywords[i])));
    }
    if has_keyword(other, other_keywords) {
        let i = choose|i: int|
            0 <= i < other_keywords.len() && crate::text::occurs(
                lowercase(other),
                lowercase(#[trigger] other_keywords[i]),
            );
        assert(crate::text::occurs(lowercase(body), lowercase(keywords[i])));
    }
}

/// Where the sender's client says whom a message mentions, its body is not searched for
/// mentions, only for keywords.
pub proof fn stated_mentions_take_precedence(
    body: Seq<char>,
    mentions: Mentions,
    own_user_id: Seq<char>,
    display_name: Option<Seq<char>>,
    keywords: Seq<Seq<char>>,
)
    ensures
        highlights(body, Some(mentions), own_user_id, display_name, keywords).0 == texts(
            mentions.user_ids@,
        ).contains(own_user_id),
        highlights(body, Some(mentions), own_user_id, display_name, keywords).1 == mentions.room,
        highlights(body, Some(mentions), own_user_id, display_name, keywords).2 == has_keyword(
            body,
            keywords,
        ),
        highlights(body, None, own_user_id, display_name, keywords).0 == names_user(
            body,
            own_user_id,
            display_name,
        ),
        highlights(body, None, own_user_id, display_name, keywords).1 == names_room(body),
{
}

/// Mentions and keywords are looked for in what the sender wrote: whether bodies are shown, and how
/// much of them, makes no difference to them.
pub proof fn hidden_bodies_are_searched(
    ev: MessageEvent,
    content: MessageContent,
    room: RoomFacts,
    state: DaemonStateView,
    a: ConfigView,
    b: ConfigView,
)
    requires
        a.notifications == b.notifications,
    ensures
        ({
            let x = message_notif(ev, content, room, state, a);
            let y = message_notif(ev, content, room, state, b);
            &&& x.mentions_you == y.mentions_you
            &&& x.mentions_room == y.mentions_room
            &&& x.matched_keyword == y.matched_keyword
        }),
        message_notif(ev, content, room, state, a).matched_keyword == has_keyword(
            content.body@,
            a.notifications.effective(room.room_id@, room.direct()).keywords,
        ),
{
}

/// An invitation counts as fresh: announced as sent at the moment that the clock shows, it is never
/// too old, and where neither the sender lists nor quiet hours decide, it goes by its own level.
pub proof fn invitations_count_as_fresh(
    ev: MemberEvent,
    room_id: Seq<char>,
    display_name: Option<String>,
    config: ConfigView,
    now: LocalTime,
)
    ensures
        !too_old(now.timestamp as int, config, now),
        config.notifications.enabled && !config.notifications.senders.lists(ev.sender@) && !quiet(
            config.behavior.quiet_hours,
            now.second_of_day,
        ) ==> verdict(
            invite_notif(ev, room_id, display_name, now.timestamp as int).context(),
            config,
            now,
        ) == at_level(config.notifications.invites),
{
}

/// Where neither age, nor the main switch, nor the sender lists, nor quiet hours decide, an event
/// goes by the levels that hold for its room. A message is announced with sound where one of the
/// levels that apply to it is noisy, and not at all where all of them are off: these are the level of
/// encrypted messages for an encrypted one or that of unencrypted messages for another, and those of
/// its highlights. Calls, reactions, edits and invitations go by levels of their own.
pub proof fn verdict_goes_by_levels(ctx: EventContextView, config: ConfigView, now: LocalTime)
    requires
        now.timestamp - ctx.event_ts_secs <= config.behavior.max_event_age_secs,
        config.notifications.enabled,
        !config.notifications.senders.off.contains(ctx.sender),
        !config.notifications.senders.silent.contains(ctx.sender),
        !config.notifications.senders.noisy.contains(ctx.sender),
        !quiet(config.behavior.quiet_hours, now.second_of_day),
    ensures
        ({
            let room = config.notifications.effective(ctx.room_id, ctx.is_direct);
            let applies = |level: NotifyLevel|
                {
                    ||| ctx.is_encrypted && room.encrypted == level
                    ||| !ctx.is_encrypted && room.unencrypted == level
                    ||| ctx.mentions_you && room.mentions_you == level
                    ||| ctx.mentions_room && room.mentions_room == level
                    ||| ctx.matched_keyword && room.keyword_match == level
                };
            let own = |level: NotifyLevel|
                match level {
                    NotifyLevel::Off => FilterResult::Suppress,
                    NotifyLevel::Silent => FilterResult::Notify { sound: false },
                    NotifyLevel::Noisy => FilterResult::Notify { sound: true },
                };
            let r = verdict(ctx, config, now);
            &&& ctx.kind == EventKind::Message ==> r == own(
                if applies(NotifyLevel::Noisy) {
                    NotifyLevel::Noisy
                } else if applies(NotifyLevel::Silent) {
                    NotifyLevel::Silent
                } else {
                    NotifyLevel::Off
                },
            )
            &&& ctx.kind == EventKind::Call ==> r == own(room.calls)
            &&& ctx.kind == EventKind::Reaction ==> r == own(room.reactions)
            &&& ctx.kind == EventKind::Invite ==> r == own(config.notifications.invites)
            &&& ctx.kind == EventKind::Edit ==> {
                &&& room.edits == EditMode::Off ==> r == FilterResult::Suppress
                &&& room.edits == EditMode::Replace ==> r == FilterResult::Replace
                &&& room.edits == EditMode::Silent ==> r == (FilterResult::Notify { sound: false })
                &&& room.edits == EditMode::Noisy ==> r == (FilterResult::Notify { sound: true })
            }
        }),
{
}

} // verus!
