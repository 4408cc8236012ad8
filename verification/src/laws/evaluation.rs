//! Laws of single calls of the filters, of highlights and of bodies: what comes back, said of the
//! arguments as they were given.
use vstd::prelude::*;

use crate::clock::{clock_time, LocalTime};
use crate::config::{Config, EditMode, NotificationConfig, NotifyLevel, RoomConfig};
use crate::filters::{
    detect_highlights, detect_mentions_from_body, evaluate, format_body, is_quiet_hours, keyword_in,
    mentions_in, message_level, truncate, EventContext, EventKind, FilterResult, Mentions,
    MessageType,
};
use crate::ids::UserId;
use crate::text::{lowercase, occurs, texts};

verus! {

/// Whether one of the strings reads so.
pub open spec fn named(list: Seq<String>, s: Seq<char>) -> bool {
    exists|i: int| 0 <= i < list.len() && (#[trigger] list[i])@ == s
}

/// A list of strings names what its texts hold.
pub proof fn named_is_among_the_texts(list: Seq<String>, s: Seq<char>)
    ensures
        named(list, s) == texts(list).contains(s),
{
    if named(list, s) {
        let i = choose|i: int| 0 <= i < list.len() && (#[trigger] list[i])@ == s;
        assert(texts(list)[i] == s);
    }
    if texts(list).contains(s) {
        let i = choose|i: int| 0 <= i < texts(list).len() && texts(list)[i] == s;
        assert(list[i]@ == s);
    }
}

/// Whether one of the sender lists names the sender.
pub open spec fn listed(config: Config, sender: Seq<char>) -> bool {
    ||| named(config.notifications.senders.off@, sender)
    ||| named(config.notifications.senders.silent@, sender)
    ||| named(config.notifications.senders.noisy@, sender)
}

/// Whether the event is no older than the configuration admits, and notifications are on.
pub open spec fn admitted(ctx: EventContext, config: Config, now: LocalTime) -> bool {
    &&& now.timestamp - ctx.event_ts_secs <= config.behavior.max_event_age_secs
    &&& config.notifications.enabled
}

/// Whether nothing but the levels is left to decide: the event is admitted, its sender is not
/// listed, and quiet hours do not hold.
pub open spec fn left_to_levels(ctx: EventContext, config: Config, now: LocalTime) -> bool {
    &&& admitted(ctx, config, now)
    &&& !listed(config, ctx.sender@)
    &&& call_ensures(is_quiet_hours, (&config, now.second_of_day), false)
}

/// Whether a result is what a level asks for: nothing, a silent or a noisy announcement.
pub open spec fn goes_by(r: FilterResult, level: NotifyLevel) -> bool {
    &&& (r == FilterResult::Suppress) == (level == NotifyLevel::Off)
    &&& (r == FilterResult::Notify { sound: false }) == (level == NotifyLevel::Silent)
    &&& (r == FilterResult::Notify { sound: true }) == (level == NotifyLevel::Noisy)
}

/// Whether one of the levels that apply to a message is `level`: that of encrypted messages for an
/// encrypted one, that of unencrypted messages for another, and those of the highlights it has.
pub open spec fn applies(ctx: EventContext, room: RoomConfig, level: NotifyLevel) -> bool {
    ||| ctx.is_encrypted && room.encrypted == level
    ||| !ctx.is_encrypted && room.unencrypted == level
    ||| ctx.mentions_you && room.mentions_you == level
    ||| ctx.mentions_room && room.mentions_room == level
    ||| ctx.matched_keyword && room.keyword_match == level
}

/// What is too old, or comes in while notifications are off, is not announced, whoever sent it and
/// whatever the levels say.
pub proof fn old_or_disabled_events_are_suppressed(
    ctx: EventContext,
    config: Config,
    now: LocalTime,
    r: FilterResult,
)
    requires
        call_ensures(evaluate, (&ctx, &config, now), r),
        now.timestamp - ctx.event_ts_secs > config.behavior.max_event_age_secs
            || !config.notifications.enabled,
    ensures
        r == FilterResult::Suppress,
{
}

/// An admitted event of a listed sender goes by the lists alone, quiet hours or not: off before
/// silent before noisy.
pub proof fn listed_senders_go_by_their_list(
    ctx: EventContext,
    config: Config,
    now: LocalTime,
    r: FilterResult,
)
    requires
        call_ensures(evaluate, (&ctx, &config, now), r),
        admitted(ctx, config, now),
        listed(config, ctx.sender@),
    ensures
        named(config.notifications.senders.off@, ctx.sender@) ==> r == FilterResult::Suppress,
        !named(config.notifications.senders.off@, ctx.sender@) && named(
            config.notifications.senders.silent@,
            ctx.sender@,
        ) ==> r == (FilterResult::Notify { sound: false }),
        !named(config.notifications.senders.off@, ctx.sender@) && !named(
            config.notifications.senders.silent@,
            ctx.sender@,
        ) ==> r == (FilterResult::Notify { sound: true }),
{
    let senders = config.notifications.senders;
    named_is_among_the_texts(senders.off@, ctx.sender@);
    named_is_among_the_texts(senders.silent@, ctx.sender@);
    named_is_among_the_texts(senders.noisy@, ctx.sender@);
}

/// In quiet hours nothing is announced of senders that are not listed.
pub proof fn quiet_hours_keep_quiet(
    ctx: EventContext,
    config: Config,
    now: LocalTime,
    r: FilterResult,
)
    requires
        call_ensures(evaluate, (&ctx, &config, now), r),
        call_ensures(is_quiet_hours, (&config, now.second_of_day), true),
        !listed(config, ctx.sender@),
    ensures
        r == FilterResult::Suppress,
{
    let senders = config.notifications.senders;
    named_is_among_the_texts(senders.off@, ctx.sender@);
    named_is_among_the_texts(senders.silent@, ctx.sender@);
    named_is_among_the_texts(senders.noisy@, ctx.sender@);
}

/// Where nothing but the levels is left to decide, an event goes by those that hold for its room: a
/// message by the loudest of the levels that apply to it, a call, a reaction and an edit by their
/// own, and an invitation by the level of invitations, whatever the room says.
pub proof fn events_go_by_the_levels_of_their_room(
    ctx: EventContext,
    config: Config,
    now: LocalTime,
    room_id: &str,
    room: RoomConfig,
    r: FilterResult,
)
    requires
        call_ensures(evaluate, (&ctx, &config, now), r),
        left_to_levels(ctx, config, now),
        room_id@ == ctx.room_id@,
        call_ensures(
            NotificationConfig::effective_for,
            (&config.notifications, room_id, ctx.is_direct),
            room,
        ),
    ensures
        ctx.kind == EventKind::Message ==> {
            &&& (r == FilterResult::Notify { sound: true }) == applies(ctx, room, NotifyLevel::Noisy)
            &&& (r == FilterResult::Suppress) == (!applies(ctx, room, NotifyLevel::Noisy)
                && !applies(ctx, room, NotifyLevel::Silent))
            &&& r != FilterResult::Replace
        },
        ctx.kind == EventKind::Call ==> goes_by(r, room.calls),
        ctx.kind == EventKind::Reaction ==> goes_by(r, room.reactions),
        ctx.kind == EventKind::Edit ==> {
            &&& (r == FilterResult::Suppress) == (room.edits == EditMode::Off)
            &&& (r == FilterResult::Replace) == (room.edits == EditMode::Replace)
            &&& (r == FilterResult::Notify { sound: false }) == (room.edits == EditMode::Silent)
            &&& (r == FilterResult::Notify { sound: true }) == (room.edits == EditMode::Noisy)
        },
        ctx.kind == EventKind::Invite ==> goes_by(r, config.notifications.invites),
{
    let senders = config.notifications.senders;
    named_is_among_the_texts(senders.off@, ctx.sender@);
    named_is_among_the_texts(senders.silent@, ctx.sender@);
    named_is_among_the_texts(senders.noisy@, ctx.sender@);
}

/// A message without highlights goes by one level alone: that of encrypted messages where it is
/// encrypted, and that of unencrypted ones where it is not.
pub proof fn plain_messages_go_by_their_encryption(
    ctx: EventContext,
    config: Config,
    now: LocalTime,
    room_id: &str,
    room: RoomConfig,
    r: FilterResult,
)
    requires
        call_ensures(evaluate, (&ctx, &config, now), r),
        left_to_levels(ctx, config, now),
        room_id@ == ctx.room_id@,
        call_ensures(
            NotificationConfig::effective_for,
            (&config.notifications, room_id, ctx.is_direct),
            room,
        ),
        ctx.kind == EventKind::Message,
        !ctx.mentions_you && !ctx.mentions_room && !ctx.matched_keyword,
    ensures
        ctx.is_encrypted ==> goes_by(r, room.encrypted),
        !ctx.is_encrypted ==> goes_by(r, room.unencrypted),
{
    events_go_by_the_levels_of_their_room(ctx, config, now, room_id, room, r);
}

/// The level of a message is the loudest of those that apply to it.
pub proof fn message_levels_are_the_loudest(ctx: EventContext, room: RoomConfig, r: NotifyLevel)
    requires
        call_ensures(message_level, (&ctx, &room), r),
    ensures
        applies(ctx, room, r),
        (r == NotifyLevel::Noisy) == applies(ctx, room, NotifyLevel::Noisy),
        (r == NotifyLevel::Off) == (!applies(ctx, room, NotifyLevel::Noisy) && !applies(
            ctx,
            room,
            NotifyLevel::Silent,
        )),
{
}

/// Quiet hours hold from their first second on and up to their last, which is the one before their
/// end. Where they end earlier in the day than they begin they span midnight. They do not hold
/// where they are disabled or an end of them is no clock time.
pub proof fn quiet_hours_last_from_start_to_end(config: Config, second: u32, r: bool)
    requires
        call_ensures(is_quiet_hours, (&config, second), r),
    ensures
        ({
            let hours = config.behavior.quiet_hours;
            let start = clock_time(hours.start@);
            let end = clock_time(hours.end@);
            &&& !hours.enabled || start is None || end is None ==> !r
            &&& hours.enabled && start is Some && end is Some && start->0 <= end->0 ==> r == (
            start->0 <= second && second < end->0)
            &&& hours.enabled && start is Some && end is Some && start->0 > end->0 ==> r == !(
            end->0 <= second && second < start->0)
        }),
{
}

/// Whether the characters are digits for a number below `limit`.
pub open spec fn two_digits(tens: char, ones: char, limit: int) -> bool {
    &&& '0' <= tens <= '9'
    &&& '0' <= ones <= '9'
    &&& (tens as int - 48) * 10 + (ones as int - 48) < limit
}

/// A clock time is an hour and a minute with a colon between them, and names the second of the day
/// at which that minute begins. Nothing may follow it.
pub proof fn clock_times_are_hours_and_minutes(a: char, b: char, c: char, d: char, rest: Seq<char>)
    requires
        two_digits(a, b, 100),
        two_digits(c, d, 100),
    ensures
        two_digits(a, b, 24) && two_digits(c, d, 60) ==> clock_time(seq![a, b, ':', c, d]) == Some(
            (((a as int - 48) * 10 + (b as int - 48)) * 3600 + ((c as int - 48) * 10 + (d as int
                - 48)) * 60) as u32,
        ),
        !two_digits(a, b, 24) || !two_digits(c, d, 60) ==> clock_time(seq![a, b, ':', c, d])
            is None,
        rest.len() > 0 ==> clock_time(seq![a, b, ':', c, d] + rest) is None,
        clock_time(seq![a, b, c, d]) is None,
        two_digits(c, d, 60) ==> clock_time(seq![b, ':', c, d]) == clock_time(
            seq!['0', b, ':', c, d],
        ),
        two_digits(a, b, 24) ==> clock_time(seq![a, b, ':', d]) == clock_time(
            seq![a, b, ':', '0', d],
        ),
        clock_time(seq![a, b]) is None,
        clock_time(seq![a, b, ':']) is None,
        clock_time(Seq::empty()) is None,
{
    let whole = seq![a, b, ':', c, d];
    let minute = seq![c, d];
    assert(whole.skip(3) =~= minute);
    assert(whole.take(2) =~= seq![a, b]);
    let longer = whole + rest;
    assert(longer.skip(3) =~= minute + rest);
    assert(longer[0] == a && longer[1] == b);
    assert((minute + rest)[0] == c);
    let colon_last = seq![a, b, ':'];
    assert(colon_last.skip(3) =~= Seq::<char>::empty());
    assert(seq![a, b, c, d][2] == c);
    let short_hour = seq![b, ':', c, d];
    let full_hour = seq!['0', b, ':', c, d];
    assert(short_hour.skip(2) =~= minute);
    assert(short_hour.take(1) =~= seq![b]);
    assert(full_hour.skip(3) =~= minute);
    assert(full_hour.take(2) =~= seq!['0', b]);
    let short_minute = seq![a, b, ':', d];
    let full_minute = seq![a, b, ':', '0', d];
    assert(short_minute.skip(3) =~= seq![d]);
    assert(short_minute.take(2) =~= seq![a, b]);
    assert(full_minute.skip(3) =~= seq!['0', d]);
    assert(full_minute.take(2) =~= seq![a, b]);
}

/// A cut text is as long as it may be and begins as the whole did; three dots show that something
/// is missing. A text that is short enough stays as it is.
pub proof fn cut_texts_end_in_dots(s: &str, max: usize, r: String)
    requires
        call_ensures(truncate, (s, max), r),
    ensures
        s@.len() <= max ==> r@ == s@,
        s@.len() > max ==> r@.len() == max + 3 && (forall|i: int|
            0 <= i < max ==> #[trigger] r@[i] == s@[i]) && r@[max as int] == '.' && r@[max + 1]
            == '.' && r@[max + 2] == '.',
{
    reveal_strlit("...");
}

/// A body that is not to be shown reads alike for every message. One that is shown is the text of
/// the message; what has no text shows what it is, and an emote shows who does it. Either way it is
/// cut where it is too long.
pub proof fn bodies_read_by_their_message(
    msgtype: MessageType,
    sender: &str,
    config: Config,
    whole: &str,
    r: String,
    cut: String,
)
    requires
        call_ensures(format_body, (&msgtype, sender, &config), r),
        call_ensures(truncate, (whole, config.behavior.max_body_length), cut),
    ensures
        !config.behavior.show_message_body ==> r@ == "new message"@,
        config.behavior.show_message_body ==> {
            &&& msgtype matches MessageType::Text(body) ==> (whole@ == body@ ==> r@ == cut@)
            &&& msgtype matches MessageType::Notice(body) ==> (whole@ == body@ ==> r@ == cut@)
            &&& msgtype matches MessageType::Emote(body) ==> (whole@ == "* "@ + sender@ + " "@
                + body@ ==> r@ == cut@)
            &&& msgtype matches MessageType::File(name) ==> (whole@ == "[file: "@ + name@ + "]"@
                ==> r@ == cut@)
            &&& msgtype is Image && whole@ == "[image]"@ ==> r@ == cut@
            &&& msgtype is Video && whole@ == "[video]"@ ==> r@ == cut@
            &&& msgtype is Audio && whole@ == "[audio]"@ ==> r@ == cut@
            &&& msgtype is Other && whole@ == "new message"@ ==> r@ == cut@
        },
{
}

/// What a body is searched for, upper and lower case taken as one, is the user's id, their
/// localpart behind an `@`, a display name that is not empty, the whole room, and each keyword. What
/// the sender's client says of mentions is taken in place of a search for them.
pub proof fn highlights_are_what_the_body_holds(
    body: &str,
    mentions: Option<Mentions>,
    own_user_id: UserId,
    localpart: &str,
    display_name: Option<&str>,
    keywords: &[String],
    r: (bool, bool, bool),
)
    requires
        call_ensures(
            detect_highlights,
            (body, &mentions, &own_user_id, display_name, keywords),
            r,
        ),
        call_ensures(UserId::localpart, (&own_user_id,), localpart),
    ensures
        mentions matches Some(m) ==> r.0 == named(m.user_ids@, own_user_id@) && r.1 == m.room,
        mentions is None ==> {
            &&& r.0 == (occurs(lowercase(body@), lowercase("@"@ + localpart@)) || occurs(
                lowercase(body@),
                lowercase(own_user_id@),
            ) || (display_name is Some && display_name->0@.len() > 0 && occurs(
                lowercase(body@),
                lowercase(display_name->0@),
            )))
            &&& r.1 == occurs(lowercase(body@), "@room"@)
        },
        r.2 == exists|i: int|
            0 <= i < keywords@.len() && occurs(
                lowercase(body@),
                lowercase((#[trigger] keywords@[i])@),
            ),
{
    if let Some(m) = mentions {
        named_is_among_the_texts(m.user_ids@, own_user_id@);
    }
    let given = texts(keywords@);
    if r.2 {
        let i = choose|i: int|
            0 <= i < given.len() && occurs(lowercase(body@), lowercase(#[trigger] given[i]));
        assert(occurs(lowercase(body@), lowercase(keywords@[i]@)));
    }
    if exists|i: int|
        0 <= i < keywords@.len() && occurs(lowercase(body@), lowercase((#[trigger] keywords@[i])@)) {
        let i = choose|i: int|
            0 <= i < keywords@.len() && occurs(
                lowercase(body@),
                lowercase((#[trigger] keywords@[i])@),
            );
        assert(given[i] == keywords@[i]@);
    }
}

/// The search of a body in lower case finds what occurs in it and nothing else.
pub proof fn lowered_bodies_are_searched(
    body: &str,
    keywords: Vec<String>,
    at_localpart: &str,
    id: &str,
    name: Option<&str>,
    by_keyword: bool,
    by_mention: (bool, bool),
)
    requires
        call_ensures(keyword_in, (body, &keywords), by_keyword),
        call_ensures(mentions_in, (body, at_localpart, id, name), by_mention),
    ensures
        by_keyword == exists|i: int|
            0 <= i < keywords@.len() && occurs(body@, (#[trigger] keywords@[i])@),
        by_mention.0 == (occurs(body@, at_localpart@) || occurs(body@, id@) || (name is Some
            && occurs(body@, name->0@))),
        by_mention.1 == occurs(body@, "@room"@),
{
    let given = texts(keywords@);
    if by_keyword {
        let i = choose|i: int| 0 <= i < given.len() && occurs(body@, #[trigger] given[i]);
        assert(occurs(body@, keywords@[i]@));
    }
    if exists|i: int| 0 <= i < keywords@.len() && occurs(body@, (#[trigger] keywords@[i])@) {
        let i = choose|i: int|
            0 <= i < keywords@.len() && occurs(body@, (#[trigger] keywords@[i])@);
        assert(given[i] == keywords@[i]@);
    }
}

/// The mentions that a body alone gives are those that highlights have where the sender's client
/// says nothing.
pub proof fn unstated_mentions_come_from_the_body(
    body: &str,
    own_user_id: UserId,
    display_name: Option<&str>,
    keywords: &[String],
    mentions: (bool, bool),
    r: (bool, bool, bool),
)
    requires
        call_ensures(detect_mentions_from_body, (body, &own_user_id, display_name), mentions),
        call_ensures(
            detect_highlights,
            (body, &None::<Mentions>, &own_user_id, display_name, keywords),
            r,
        ),
    ensures
        mentions == (r.0, r.1),
{
}

} // verus!
