//! The filters that an event passes before it is announced.
use vstd::prelude::*;
use vstd::string::*;

use crate::clock::{clock_time, parse_clock_time, LocalTime};
use crate::config::{
    Config, ConfigView, EditMode, NotifyLevel, QuietHoursView, RoomConfig, RoomConfigView,
};
use crate::ids::{localpart_of, UserId};
use crate::text::{contains_text, join, list_has, lowercase, occurs, texts, to_lower};

verus! {

/// What kind of event is to be announced.
#[derive(Debug, Clone, Copy, PartialEq, Eq, Structural)]
pub enum EventKind {
    Message,
    Invite,
    Call,
    Reaction,
    Edit,
}

/// What the filters say about an event.
#[derive(Debug, Clone, Copy, PartialEq, Eq, Structural)]
pub enum FilterResult {
    /// Announce it, with or without sound.
    Notify { sound: bool },
    /// Replace the notification of the edited message.
    Replace,
    /// Do not announce it.
    Suppress,
}

/// What the filters look at.
#[derive(Debug)]
pub struct EventContext {
    pub kind: EventKind,
    pub sender: String,
    pub room_id: String,
    pub is_direct: bool,
    pub is_encrypted: bool,
    pub mentions_you: bool,
    pub mentions_room: bool,
    pub matched_keyword: bool,
    /// When the event was sent, in seconds since the Unix epoch.
    pub event_ts_secs: i64,
}

/// What an `EventContext` says.
#[verifier::ext_equal]
pub struct EventContextView {
    pub kind: EventKind,
    pub sender: Seq<char>,
    pub room_id: Seq<char>,
    pub is_direct: bool,
    pub is_encrypted: bool,
    pub mentions_you: bool,
    pub mentions_room: bool,
    pub matched_keyword: bool,
    pub event_ts_secs: int,
}

impl View for EventContext {
    type V = EventContextView;

    open spec fn view(&self) -> EventContextView {
        EventContextView {
            kind: self.kind,
            sender: self.sender@,
            room_id: self.room_id@,
            is_direct: self.is_direct,
            is_encrypted: self.is_encrypted,
            mentions_you: self.mentions_you,
            mentions_room: self.mentions_room,
            matched_keyword: self.matched_keyword,
            event_ts_secs: self.event_ts_secs as int,
        }
    }
}

/// Whether the event is older than the configuration admits.
pub open spec fn too_old(event_ts_secs: int, config: ConfigView, now: LocalTime) -> bool {
    now.timestamp - event_ts_secs > config.behavior.max_event_age_secs
}

/// Whether the second of the day lies in the window from `start` to `end`, which may span
/// midnight.
pub open spec fn in_window(start: u32, end: u32, second: u32) -> bool {
    if start <= end {
        start <= second < end
    } else {
        start <= second || second < end
    }
}

/// Whether quiet hours hold: they are enabled, both ends are clock times, and the second of the
/// day lies between them.
pub open spec fn quiet(hours: QuietHoursView, second: u32) -> bool {
    hours.enabled && match (clock_time(hours.start), clock_time(hours.end)) {
        (Some(start), Some(end)) => in_window(start, end, second),
        _ => false,
    }
}

/// A level that counts only where its condition holds.
pub open spec fn level_if(condition: bool, level: NotifyLevel) -> NotifyLevel {
    if condition {
        level
    } else {
        NotifyLevel::Off
    }
}

/// The level of a message: the loudest of the levels that apply to it.
pub open spec fn level_of_message(ctx: EventContextView, room: RoomConfigView) -> NotifyLevel {
    let base = if ctx.is_encrypted {
        room.encrypted
    } else {
        room.unencrypted
    };
    base.louder(level_if(ctx.mentions_you, room.mentions_you)).louder(
        level_if(ctx.mentions_room, room.mentions_room),
    ).louder(level_if(ctx.matched_keyword, room.keyword_match))
}

/// What a level asks for.
pub open spec fn at_level(level: NotifyLevel) -> FilterResult {
    match level {
        NotifyLevel::Off => FilterResult::Suppress,
        NotifyLevel::Silent => FilterResult::Notify { sound: false },
        NotifyLevel::Noisy => FilterResult::Notify { sound: true },
    }
}

/// What an edit mode asks for.
pub open spec fn at_edit_mode(mode: EditMode) -> FilterResult {
    match mode {
        EditMode::Off => FilterResult::Suppress,
        EditMode::Replace => FilterResult::Replace,
        EditMode::Silent => FilterResult::Notify { sound: false },
        EditMode::Noisy => FilterResult::Notify { sound: true },
    }
}

/// What the levels of the room say about an event. Invites go by their own level.
pub open spec fn by_room(ctx: EventContextView, config: ConfigView) -> FilterResult {
    let room = config.notifications.effective(ctx.room_id, ctx.is_direct);
    match ctx.kind {
        EventKind::Invite => at_level(config.notifications.invites),
        EventKind::Call => at_level(room.calls),
        EventKind::Reaction => at_level(room.reactions),
        EventKind::Edit => at_edit_mode(room.edits),
        EventKind::Message => at_level(level_of_message(ctx, room)),
    }
}

/// What the filters say about an event: age and the main switch come first, then the sender
/// lists, then quiet hours, then the levels of the room.
pub open spec fn verdict(ctx: EventContextView, config: ConfigView, now: LocalTime) -> FilterResult {
    let senders = config.notifications.senders;
    if too_old(ctx.event_ts_secs, config, now) || !config.notifications.enabled {
        FilterResult::Suppress
    } else if senders.off.contains(ctx.sender) {
        FilterResult::Suppress
    } else if senders.silent.contains(ctx.sender) {
        FilterResult::Notify { sound: false }
    } else if senders.noisy.contains(ctx.sender) {
        FilterResult::Notify { sound: true }
    } else if quiet(config.behavior.quiet_hours, now.second_of_day) {
        FilterResult::Suppress
    } else {
        by_room(ctx, config)
    }
}

/// Passes an event through the filters.
pub fn evaluate(ctx: &EventContext, config: &Config, now: LocalTime) -> (r: FilterResult)
    ensures
        r == verdict(ctx@, config@, now),
{
    let age: i128 = now.timestamp as i128 - ctx.event_ts_secs as i128;
    if age > config.behavior.max_event_age_secs as i128 {
        return FilterResult::Suppress;
    }
    if !config.notifications.enabled {
        return FilterResult::Suppress;
    }
    let senders = &config.notifications.senders;
    if list_has(&senders.off, ctx.sender.as_str()) {
        return FilterResult::Suppress;
    }
    if list_has(&senders.silent, ctx.sender.as_str()) {
        return FilterResult::Notify { sound: false };
    }
    if list_has(&senders.noisy, ctx.sender.as_str()) {
        return FilterResult::Notify { sound: true };
    }
    if is_quiet_hours(config, now.second_of_day) {
        return FilterResult::Suppress;
    }
    let effective = config.notifications.effective_for(ctx.room_id.as_str(), ctx.is_direct);
    let level = match ctx.kind {
        EventKind::Invite => config.notifications.invites,
        EventKind::Call => effective.calls,
        EventKind::Reaction => effective.reactions,
        EventKind::Edit => match effective.edits {
            EditMode::Off => return FilterResult::Suppress,
            EditMode::Replace => return FilterResult::Replace,
            EditMode::Silent => NotifyLevel::Silent,
            EditMode::Noisy => NotifyLevel::Noisy,
        },
        EventKind::Message => message_level(ctx, &effective),
    };
    match level {
        NotifyLevel::Off => FilterResult::Suppress,
        NotifyLevel::Silent => FilterResult::Notify { sound: false },
        NotifyLevel::Noisy => FilterResult::Notify { sound: true },
    }
}

/// The level of a message: the loudest of the levels that apply to it.
pub fn message_level(ctx: &EventContext, effective: &RoomConfig) -> (r: NotifyLevel)
    ensures
        r == level_of_message(ctx@, effective@),
{
    let mut level = if ctx.is_encrypted {
        effective.encrypted
    } else {
        effective.unencrypted
    };
    if ctx.mentions_you {
        level = level.loudest(effective.mentions_you);
    }
    if ctx.mentions_room {
        level = level.loudest(effective.mentions_room);
    }
    if ctx.matched_keyword {
        level = level.loudest(effective.keyword_match);
    }
    level
}

/// Whether quiet hours hold at the second of the day. Where an end of them is no clock time
/// they never hold.
pub fn is_quiet_hours(config: &Config, second: u32) -> (r: bool)
    ensures
        r == quiet(config@.behavior.quiet_hours, second),
{
    let hours = &config.behavior.quiet_hours;
    if !hours.enabled {
        return false;
    }
    let start = match parse_clock_time(hours.start.as_str(), "%H:%M") {
        Some(t) => t,
        None => return false,
    };
    let end = match parse_clock_time(hours.end.as_str(), "%H:%M") {
        Some(t) => t,
        None => return false,
    };
    if start <= end {
        second >= start && second < end
    } else {
        second >= start || second < end
    }
}

/// The content of a message, as far as it shows in a notification.
#[derive(Debug)]
pub enum MessageType {
    Text(String),
    Notice(String),
    Emote(String),
    Image,
    Video,
    Audio,
    /// A file, by its name.
    File(String),
    Other,
}

/// A text cut to `max` characters; dots show where something was cut off.
pub open spec fn truncated(s: Seq<char>, max: nat) -> Seq<char> {
    if s.len() <= max {
        s
    } else {
        s.take(max as int) + "..."@
    }
}

/// How a message reads before it is cut.
pub open spec fn message_text(msgtype: MessageType, sender: Seq<char>) -> Seq<char> {
    match msgtype {
        MessageType::Text(body) => body@,
        MessageType::Notice(body) => body@,
        MessageType::Emote(body) => "* "@ + sender + " "@ + body@,
        MessageType::Image => "[image]"@,
        MessageType::Video => "[video]"@,
        MessageType::Audio => "[audio]"@,
        MessageType::File(name) => "[file: "@ + name@ + "]"@,
        MessageType::Other => "new message"@,
    }
}

/// The body of a notification.
pub open spec fn body_text(msgtype: MessageType, sender: Seq<char>, config: ConfigView) -> Seq<
    char,
> {
    if config.behavior.show_message_body {
        truncated(message_text(msgtype, sender), config.behavior.max_body_length)
    } else {
        "new message"@
    }
}

/// The body of a notification: the message, cut to the configured length, or a fixed text where
/// bodies are not shown.
pub fn format_body(msgtype: &MessageType, sender: &str, config: &Config) -> (r: String)
    ensures
        r@ == body_text(*msgtype, sender@, config@),
{
    if !config.behavior.show_message_body {
        return "new message".to_owned();
    }
    let body: String = match msgtype {
        MessageType::Text(body) => body.clone(),
        MessageType::Notice(body) => body.clone(),
        MessageType::Emote(body) => join("* ", sender).concat(" ").concat(body.as_str()),
        MessageType::Image => "[image]".to_owned(),
        MessageType::Video => "[video]".to_owned(),
        MessageType::Audio => "[audio]".to_owned(),
        MessageType::File(name) => join("[file: ", name.as_str()).concat("]"),
        MessageType::Other => "new message".to_owned(),
    };
    truncate(body.as_str(), config.behavior.max_body_length)
}

/// Whom a message mentions, as its sender's client says.
#[derive(Debug)]
pub struct Mentions {
    pub user_ids: Vec<String>,
    pub room: bool,
}

/// Whether one of the patterns occurs in the text.
pub open spec fn any_occurs(text: Seq<char>, patterns: Seq<Seq<char>>) -> bool {
    exists|i: int| 0 <= i < patterns.len() && occurs(text, #[trigger] patterns[i])
}

/// Whether one of the forms in which the user can be addressed occurs in the text.
pub open spec fn user_occurs(
    text: Seq<char>,
    at_localpart: Seq<char>,
    id: Seq<char>,
    name: Option<Seq<char>>,
) -> bool {
    ||| occurs(text, at_localpart)
    ||| occurs(text, id)
    ||| name matches Some(name) && occurs(text, name)
}

/// The display name in lower case, where there is one that is not empty.
pub open spec fn lower_name(display_name: Option<Seq<char>>) -> Option<Seq<char>> {
    match display_name {
        Some(name) if name.len() > 0 => Some(lowercase(name)),
        _ => None,
    }
}

/// Whether a body mentions the user: by localpart or id, or by a display name that is not empty.
pub open spec fn names_user(
    body: Seq<char>,
    own_user_id: Seq<char>,
    display_name: Option<Seq<char>>,
) -> bool {
    user_occurs(
        lowercase(body),
        lowercase("@"@ + localpart_of(own_user_id)),
        lowercase(own_user_id),
        lower_name(display_name),
    )
}

/// Whether a body mentions the whole room.
pub open spec fn names_room(body: Seq<char>) -> bool {
    occurs(lowercase(body), "@room"@)
}

/// Whether a keyword occurs in the body, upper and lower case taken as one.
pub open spec fn has_keyword(body: Seq<char>, keywords: Seq<Seq<char>>) -> bool {
    exists|i: int|
        0 <= i < keywords.len() && occurs(lowercase(body), lowercase(#[trigger] keywords[i]))
}

/// Whether a message mentions the user, mentions the room, and matches a keyword. What the
/// sender's client says about mentions is taken as it is; only where it says nothing is the
/// body searched.
pub open spec fn highlights(
    body: Seq<char>,
    mentions: Option<Mentions>,
    own_user_id: Seq<char>,
    display_name: Option<Seq<char>>,
    keywords: Seq<Seq<char>>,
) -> (bool, bool, bool) {
    match mentions {
        Some(m) => (
            texts(m.user_ids@).contains(own_user_id),
            m.room,
            has_keyword(body, keywords),
        ),
        None => (
            names_user(body, own_user_id, display_name),
            names_room(body),
            has_keyword(body, keywords),
        ),
    }
}

/// The text of an optional string slice.
pub open spec fn opt_str(s: Option<&str>) -> Option<Seq<char>> {
    match s {
        Some(t) => Some(t@),
        None => None,
    }
}

/// Tells whether a message mentions the user, mentions the room, and matches a keyword.
pub fn detect_highlights(
    body: &str,
    mentions: &Option<Mentions>,
    own_user_id: &UserId,
    display_name: Option<&str>,
    keywords: &[String],
) -> (r: (bool, bool, bool))
    ensures
        r == highlights(body@, *mentions, own_user_id@, opt_str(display_name), texts(keywords@)),
{
    let (mentions_you, mentions_room) = match mentions {
        Some(m) => (list_has(&m.user_ids, own_user_id.as_str()), m.room),
        None => detect_mentions_from_body(body, own_user_id, display_name),
    };
    let lower_body = to_lower(body);
    let mut lower_keywords: Vec<String> = Vec::new();
    let mut i: usize = 0;
    while i < keywords.len()
        invariant
            i <= keywords.len(),
            lower_keywords.len() == i,
            forall|j: int|
                0 <= j < i ==> (#[trigger] lower_keywords@[j])@ == lowercase(keywords@[j]@),
        decreases keywords.len() - i,
    {
        lower_keywords.push(to_lower(keywords[i].as_str()));
        i += 1;
    }
    let matched_keyword = keyword_in(lower_body.as_str(), &lower_keywords);
    proof {
        let lower = texts(lower_keywords@);
        let given = texts(keywords@);
        if any_occurs(lowercase(body@), lower) {
            let j = choose|j: int|
                0 <= j < lower.len() && occurs(lowercase(body@), #[trigger] lower[j]);
            assert(lower_keywords@[j]@ == lowercase(given[j]));
        }
        if has_keyword(body@, given) {
            let j = choose|j: int|
                0 <= j < given.len() && occurs(lowercase(body@), lowercase(#[trigger] given[j]));
            assert(lower[j] == lower_keywords@[j]@);
        }
    }
    (mentions_you, mentions_room, matched_keyword)
}

/// Tells whether one of the keywords occurs in the body, both in lower case.
pub fn keyword_in(lower_body: &str, lower_keywords: &Vec<String>) -> (r: bool)
    ensures
        r == any_occurs(lower_body@, texts(lower_keywords@)),
{
    let mut i: usize = 0;
    while i < lower_keywords.len()
        invariant
            i <= lower_keywords.len(),
            forall|j: int| 0 <= j < i ==> !occurs(lower_body@, #[trigger] texts(lower_keywords@)[j]),
        decreases lower_keywords.len() - i,
    {
        assert(texts(lower_keywords@)[i as int] == lower_keywords@[i as int]@);
        if contains_text(lower_body, lower_keywords[i].as_str()) {
            return true;
        }
        i += 1;
    }
    false
}

/// Tells whether a body mentions the user, by one of the forms in which they can be addressed,
/// and the room, all in lower case.
pub fn mentions_in(
    lower_body: &str,
    lower_at_localpart: &str,
    lower_id: &str,
    lower_name: Option<&str>,
) -> (r: (bool, bool))
    ensures
        r.0 == user_occurs(lower_body@, lower_at_localpart@, lower_id@, opt_str(lower_name)),
        r.1 == occurs(lower_body@, "@room"@),
{
    let by_id = contains_text(lower_body, lower_at_localpart) || contains_text(
        lower_body,
        lower_id,
    );
    let by_name = match lower_name {
        Some(name) => contains_text(lower_body, name),
        None => false,
    };
    (by_id || by_name, contains_text(lower_body, "@room"))
}

/// Tells from the body alone whether a message mentions the user and the room.
pub fn detect_mentions_from_body(
    body: &str,
    own_user_id: &UserId,
    display_name: Option<&str>,
) -> (r: (bool, bool))
    ensures
        r == (names_user(body@, own_user_id@, opt_str(display_name)), names_room(body@)),
{
    let lower = to_lower(body);
    let localpart_pat = to_lower(join("@", own_user_id.localpart()).as_str());
    let mxid_pat = to_lower(own_user_id.as_str());
    match display_name {
        Some(name) if !name.is_empty() => {
            let name_pat = to_lower(name);
            mentions_in(
                lower.as_str(),
                localpart_pat.as_str(),
                mxid_pat.as_str(),
                Some(name_pat.as_str()),
            )
        },
        _ => mentions_in(lower.as_str(), localpart_pat.as_str(), mxid_pat.as_str(), None),
    }
}

/// Cuts a text to `max_chars` characters; dots show where something was cut off.
pub fn truncate(s: &str, max_chars: usize) -> (r: String)
    ensures
        r@ == truncated(s@, max_chars as nat),
{
    let char_count: usize = s.unicode_len();
    if char_count <= max_chars {
        s.to_owned()
    } else {
        join(s.substring_char(0, max_chars), "...")
    }
}

} // verus!
