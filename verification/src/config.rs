//! Notification settings: levels, per-room overrides, sender lists, quiet hours.
use vstd::prelude::*;
use vstd::string::*;

use crate::table::StringTable;
use crate::text::{copy_list, list_has, same_text, texts};

verus! {

/// How loudly an event is announced.
#[derive(Debug, Clone, Copy, PartialEq, Eq, Structural)]
pub enum NotifyLevel {
    Off,
    Silent,
    Noisy,
}

/// How an edit of a message is announced.
#[derive(Debug, Clone, Copy, PartialEq, Eq, Structural)]
pub enum EditMode {
    Off,
    Silent,
    Noisy,
    Replace,
}

/// The desktop that the daemon runs on.
#[derive(Debug, Clone, Copy, PartialEq, Eq, Structural)]
pub enum Platform {
    Linux,
    Macos,
    Other,
}

impl Default for NotifyLevel {
    fn default() -> (r: Self)
        ensures
            r == NotifyLevel::Off,
    {
        NotifyLevel::Off
    }
}

impl Default for EditMode {
    fn default() -> (r: Self)
        ensures
            r == EditMode::Replace,
    {
        EditMode::Replace
    }
}

impl NotifyLevel {
    /// Off is 0, silent 1, noisy 2.
    pub open spec fn volume(self) -> int {
        match self {
            NotifyLevel::Off => 0,
            NotifyLevel::Silent => 1,
            NotifyLevel::Noisy => 2,
        }
    }

    /// The louder of two levels.
    pub open spec fn louder(self, other: Self) -> Self {
        if self.volume() >= other.volume() {
            self
        } else {
            other
        }
    }

    /// The louder of two levels.
    pub fn loudest(self, other: Self) -> (r: Self)
        ensures
            r == self.louder(other),
    {
        match (self, other) {
            (NotifyLevel::Noisy, _) | (_, NotifyLevel::Noisy) => NotifyLevel::Noisy,
            (NotifyLevel::Silent, _) | (_, NotifyLevel::Silent) => NotifyLevel::Silent,
            _ => NotifyLevel::Off,
        }
    }
}

/// The settings that hold for one room.
#[derive(Debug)]
pub struct RoomConfig {
    pub unencrypted: NotifyLevel,
    pub encrypted: NotifyLevel,
    pub mentions_you: NotifyLevel,
    pub mentions_room: NotifyLevel,
    pub keyword_match: NotifyLevel,
    pub calls: NotifyLevel,
    pub reactions: NotifyLevel,
    pub edits: EditMode,
    /// A noisy notification within this many seconds of the previous one in the room is silenced.
    pub noisy_debounce_seconds: u64,
    /// Case-insensitive substrings that make a message a keyword match.
    pub keywords: Vec<String>,
}

/// What a `RoomConfig` says.
#[verifier::ext_equal]
pub struct RoomConfigView {
    pub unencrypted: NotifyLevel,
    pub encrypted: NotifyLevel,
    pub mentions_you: NotifyLevel,
    pub mentions_room: NotifyLevel,
    pub keyword_match: NotifyLevel,
    pub calls: NotifyLevel,
    pub reactions: NotifyLevel,
    pub edits: EditMode,
    pub noisy_debounce_seconds: u64,
    pub keywords: Seq<Seq<char>>,
}

impl View for RoomConfig {
    type V = RoomConfigView;

    open spec fn view(&self) -> RoomConfigView {
        RoomConfigView {
            unencrypted: self.unencrypted,
            encrypted: self.encrypted,
            mentions_you: self.mentions_you,
            mentions_room: self.mentions_room,
            keyword_match: self.keyword_match,
            calls: self.calls,
            reactions: self.reactions,
            edits: self.edits,
            noisy_debounce_seconds: self.noisy_debounce_seconds,
            keywords: texts(self.keywords@),
        }
    }
}

impl RoomConfigView {
    /// Every level at `level`, edits in `edits`, no debounce and no keywords.
    pub open spec fn uniform(level: NotifyLevel, edits: EditMode) -> RoomConfigView {
        RoomConfigView {
            unencrypted: level,
            encrypted: level,
            mentions_you: level,
            mentions_room: level,
            keyword_match: level,
            calls: level,
            reactions: level,
            edits,
            noisy_debounce_seconds: 0,
            keywords: Seq::empty(),
        }
    }

    /// Direct chats: everything noisy, edits replace.
    pub open spec fn dms() -> RoomConfigView {
        Self::uniform(NotifyLevel::Noisy, EditMode::Replace)
    }

    /// Rooms: silent but for mentions of the user, keyword matches and calls; edits replace.
    pub open spec fn rooms() -> RoomConfigView {
        RoomConfigView {
            mentions_you: NotifyLevel::Noisy,
            keyword_match: NotifyLevel::Noisy,
            calls: NotifyLevel::Noisy,
            ..Self::uniform(NotifyLevel::Silent, EditMode::Replace)
        }
    }

    /// Everything off.
    pub open spec fn muted() -> RoomConfigView {
        Self::uniform(NotifyLevel::Off, EditMode::Off)
    }
}

impl RoomConfig {
    /// The settings of direct chats where nothing else is configured.
    pub fn default_dms() -> (r: Self)
        ensures
            r@ == RoomConfigView::dms(),
    {
        let r = RoomConfig {
            unencrypted: NotifyLevel::Noisy,
            encrypted: NotifyLevel::Noisy,
            mentions_you: NotifyLevel::Noisy,
            mentions_room: NotifyLevel::Noisy,
            keyword_match: NotifyLevel::Noisy,
            calls: NotifyLevel::Noisy,
            reactions: NotifyLevel::Noisy,
            edits: EditMode::Replace,
            noisy_debounce_seconds: 0,
            keywords: Vec::new(),
        };
        assert(r@.keywords =~= Seq::<Seq<char>>::empty());
        r
    }

    /// The settings of rooms where nothing else is configured.
    pub fn default_rooms() -> (r: Self)
        ensures
            r@ == RoomConfigView::rooms(),
    {
        let r = RoomConfig {
            unencrypted: NotifyLevel::Silent,
            encrypted: NotifyLevel::Silent,
            mentions_you: NotifyLevel::Noisy,
            mentions_room: NotifyLevel::Silent,
            keyword_match: NotifyLevel::Noisy,
            calls: NotifyLevel::Noisy,
            reactions: NotifyLevel::Silent,
            edits: EditMode::Replace,
            noisy_debounce_seconds: 0,
            keywords: Vec::new(),
        };
        assert(r@.keywords =~= Seq::<Seq<char>>::empty());
        r
    }

    /// The settings of a muted room.
    pub fn muted() -> (r: Self)
        ensures
            r@ == RoomConfigView::muted(),
    {
        let r = RoomConfig {
            unencrypted: NotifyLevel::Off,
            encrypted: NotifyLevel::Off,
            mentions_you: NotifyLevel::Off,
            mentions_room: NotifyLevel::Off,
            keyword_match: NotifyLevel::Off,
            calls: NotifyLevel::Off,
            reactions: NotifyLevel::Off,
            edits: EditMode::Off,
            noisy_debounce_seconds: 0,
            keywords: Vec::new(),
        };
        assert(r@.keywords =~= Seq::<Seq<char>>::empty());
        r
    }
}

impl Default for RoomConfig {
    fn default() -> (r: Self)
        ensures
            r@ == RoomConfigView::rooms(),
    {
        Self::default_rooms()
    }
}

impl Clone for RoomConfig {
    fn clone(&self) -> (r: Self)
        ensures
            r@ == self@,
    {
        RoomConfig {
            unencrypted: self.unencrypted,
            encrypted: self.encrypted,
            mentions_you: self.mentions_you,
            mentions_room: self.mentions_room,
            keyword_match: self.keyword_match,
            calls: self.calls,
            reactions: self.reactions,
            edits: self.edits,
            noisy_debounce_seconds: self.noisy_debounce_seconds,
            keywords: copy_list(&self.keywords),
        }
    }
}

/// Settings of one room that replace those it would have otherwise.
#[derive(Debug)]
pub struct RoomOverride {
    /// Turns everything off, whatever the other fields say.
    pub mute: bool,
    pub unencrypted: Option<NotifyLevel>,
    pub encrypted: Option<NotifyLevel>,
    pub mentions_you: Option<NotifyLevel>,
    pub mentions_room: Option<NotifyLevel>,
    pub keyword_match: Option<NotifyLevel>,
    pub calls: Option<NotifyLevel>,
    pub reactions: Option<NotifyLevel>,
    pub edits: Option<EditMode>,
    pub noisy_debounce_seconds: Option<u64>,
    pub keywords: Option<Vec<String>>,
}

/// What a `RoomOverride` says.
#[verifier::ext_equal]
pub struct RoomOverrideView {
    pub mute: bool,
    pub unencrypted: Option<NotifyLevel>,
    pub encrypted: Option<NotifyLevel>,
    pub mentions_you: Option<NotifyLevel>,
    pub mentions_room: Option<NotifyLevel>,
    pub keyword_match: Option<NotifyLevel>,
    pub calls: Option<NotifyLevel>,
    pub reactions: Option<NotifyLevel>,
    pub edits: Option<EditMode>,
    pub noisy_debounce_seconds: Option<u64>,
    pub keywords: Option<Seq<Seq<char>>>,
}

impl View for RoomOverride {
    type V = RoomOverrideView;

    open spec fn view(&self) -> RoomOverrideView {
        RoomOverrideView {
            mute: self.mute,
            unencrypted: self.unencrypted,
            encrypted: self.encrypted,
            mentions_you: self.mentions_you,
            mentions_room: self.mentions_room,
            keyword_match: self.keyword_match,
            calls: self.calls,
            reactions: self.reactions,
            edits: self.edits,
            noisy_debounce_seconds: self.noisy_debounce_seconds,
            keywords: match self.keywords {
                Some(v) => Some(texts(v@)),
                None => None,
            },
        }
    }
}

/// The value that is set, or else the one that was there.
pub open spec fn set_or<T>(set: Option<T>, there: T) -> T {
    match set {
        Some(v) => v,
        None => there,
    }
}

impl RoomOverrideView {
    /// Nothing overridden.
    pub open spec fn nothing() -> RoomOverrideView {
        RoomOverrideView {
            mute: false,
            unencrypted: None,
            encrypted: None,
            mentions_you: None,
            mentions_room: None,
            keyword_match: None,
            calls: None,
            reactions: None,
            edits: None,
            noisy_debounce_seconds: None,
            keywords: None,
        }
    }

    /// The settings that hold where `base` is overridden.
    pub open spec fn applied_to(self, base: RoomConfigView) -> RoomConfigView {
        if self.mute {
            RoomConfigView::muted()
        } else {
            RoomConfigView {
                unencrypted: set_or(self.unencrypted, base.unencrypted),
                encrypted: set_or(self.encrypted, base.encrypted),
                mentions_you: set_or(self.mentions_you, base.mentions_you),
                mentions_room: set_or(self.mentions_room, base.mentions_room),
                keyword_match: set_or(self.keyword_match, base.keyword_match),
                calls: set_or(self.calls, base.calls),
                reactions: set_or(self.reactions, base.reactions),
                edits: set_or(self.edits, base.edits),
                noisy_debounce_seconds: set_or(
                    self.noisy_debounce_seconds,
                    base.noisy_debounce_seconds,
                ),
                keywords: set_or(self.keywords, base.keywords),
            }
        }
    }
}

impl Default for RoomOverride {
    fn default() -> (r: Self)
        ensures
            r@ == RoomOverrideView::nothing(),
    {
        RoomOverride {
            mute: false,
            unencrypted: None,
            encrypted: None,
            mentions_you: None,
            mentions_room: None,
            keyword_match: None,
            calls: None,
            reactions: None,
            edits: None,
            noisy_debounce_seconds: None,
            keywords: None,
        }
    }
}

impl Clone for RoomOverride {
    fn clone(&self) -> (r: Self)
        ensures
            r@ == self@,
    {
        RoomOverride {
            mute: self.mute,
            unencrypted: self.unencrypted,
            encrypted: self.encrypted,
            mentions_you: self.mentions_you,
            mentions_room: self.mentions_room,
            keyword_match: self.keyword_match,
            calls: self.calls,
            reactions: self.reactions,
            edits: self.edits,
            noisy_debounce_seconds: self.noisy_debounce_seconds,
            keywords: match &self.keywords {
                Some(v) => Some(copy_list(v)),
                None => None,
            },
        }
    }
}

impl RoomOverride {
    /// The settings that hold where `base` is overridden.
    pub fn apply_to(&self, base: RoomConfig) -> (r: RoomConfig)
        ensures
            r@ == self@.applied_to(base@),
    {
        if self.mute {
            return RoomConfig::muted();
        }
        RoomConfig {
            unencrypted: value_or(self.unencrypted, base.unencrypted),
            encrypted: value_or(self.encrypted, base.encrypted),
            mentions_you: value_or(self.mentions_you, base.mentions_you),
            mentions_room: value_or(self.mentions_room, base.mentions_room),
            keyword_match: value_or(self.keyword_match, base.keyword_match),
            calls: value_or(self.calls, base.calls),
            reactions: value_or(self.reactions, base.reactions),
            edits: value_or(self.edits, base.edits),
            noisy_debounce_seconds: value_or(
                self.noisy_debounce_seconds,
                base.noisy_debounce_seconds,
            ),
            keywords: match &self.keywords {
                Some(v) => copy_list(v),
                None => base.keywords,
            },
        }
    }
}

/// The value that is set, or else the one that was there.
fn value_or<T>(set: Option<T>, there: T) -> (r: T)
    ensures
        r == set_or(set, there),
{
    match set {
        Some(v) => v,
        None => there,
    }
}

/// One entry of the rooms table as it was read: its key, and what its value reads as
/// where it is taken for a room override (`None` where it is no valid override).
#[derive(Debug)]
pub struct RawRoomsEntry {
    pub key: String,
    pub as_override: Option<RoomOverride>,
}

/// The rooms table as it was read: its entries, and what the entries that name a setting
/// read as together (`None` where they are no valid settings).
#[derive(Debug)]
pub struct RawRoomsSection {
    pub extras: Vec<RawRoomsEntry>,
    pub defaults: Option<RoomConfig>,
}

impl Default for RawRoomsSection {
    fn default() -> (r: Self)
        ensures
            r.extras@ == Seq::<RawRoomsEntry>::empty(),
            r.defaults is Some && r.defaults->0@ == RoomConfigView::rooms(),
    {
        RawRoomsSection { extras: Vec::new(), defaults: Some(RoomConfig::default_rooms()) }
    }
}

/// What a key of the rooms table stands for.
#[derive(Debug, Clone, Copy, PartialEq, Eq, Structural)]
pub enum RoomsKey {
    /// A setting of all rooms.
    Setting,
    /// The override of the room that the key names.
    Override,
    /// Neither: the entry is ignored.
    Unknown,
}

/// The keys of the rooms table that are settings.
pub open spec fn setting_names() -> Set<Seq<char>> {
    set![
        "unencrypted"@,
        "encrypted"@,
        "mentions_you"@,
        "mentions_room"@,
        "keyword_match"@,
        "calls"@,
        "reactions"@,
        "edits"@,
        "noisy_debounce_seconds"@,
        "keywords"@,
    ]
}

/// What a key of the rooms table stands for: room ids start with `!`.
pub open spec fn rooms_key(key: Seq<char>) -> RoomsKey {
    if setting_names().contains(key) {
        RoomsKey::Setting
    } else if key.len() > 0 && key[0] == '!' {
        RoomsKey::Override
    } else {
        RoomsKey::Unknown
    }
}

/// Tells what a key of the rooms table stands for.
pub fn classify_rooms_key(key: &str) -> (r: RoomsKey)
    ensures
        r == rooms_key(key@),
{
    if same_text(key, "unencrypted") || same_text(key, "encrypted") || same_text(
        key,
        "mentions_you",
    ) || same_text(key, "mentions_room") || same_text(key, "keyword_match") || same_text(
        key,
        "calls",
    ) || same_text(key, "reactions") || same_text(key, "edits") || same_text(
        key,
        "noisy_debounce_seconds",
    ) || same_text(key, "keywords") {
        return RoomsKey::Setting;
    }
    if !key.is_empty() && key.get_char(0) == '!' {
        RoomsKey::Override
    } else {
        RoomsKey::Unknown
    }
}

/// Something in the configuration that was passed over.
#[derive(Debug)]
pub enum ConfigWarning {
    /// The rooms table holds a key that is neither a setting nor a room id.
    UnknownField(String),
    /// The settings in the rooms table are invalid; the defaults hold.
    InvalidDefaults,
    /// The override of this room is invalid and was dropped.
    InvalidOverride(String),
}

/// What a `ConfigWarning` says.
pub enum ConfigWarningView {
    UnknownField(Seq<char>),
    InvalidDefaults,
    InvalidOverride(Seq<char>),
}

impl View for ConfigWarning {
    type V = ConfigWarningView;

    open spec fn view(&self) -> ConfigWarningView {
        match self {
            ConfigWarning::UnknownField(k) => ConfigWarningView::UnknownField(k@),
            ConfigWarning::InvalidDefaults => ConfigWarningView::InvalidDefaults,
            ConfigWarning::InvalidOverride(k) => ConfigWarningView::InvalidOverride(k@),
        }
    }
}

/// What a list of warnings says.
pub open spec fn warning_views(v: Seq<ConfigWarning>) -> Seq<ConfigWarningView> {
    Seq::new(v.len(), |i: int| v[i]@)
}

/// The overrides that the entries give: those of the valid entries whose key is a room id.
pub open spec fn overrides_of(extras: Seq<RawRoomsEntry>) -> Map<Seq<char>, RoomOverrideView>
    decreases extras.len(),
{
    if extras.len() == 0 {
        Map::empty()
    } else {
        let before = overrides_of(extras.drop_last());
        let e = extras.last();
        match e.as_override {
            Some(o) if rooms_key(e.key@) is Override => before.insert(e.key@, o@),
            _ => before,
        }
    }
}

/// One warning for each entry whose key is neither a setting nor a room id.
pub open spec fn unknown_fields(extras: Seq<RawRoomsEntry>) -> Seq<ConfigWarningView>
    decreases extras.len(),
{
    if extras.len() == 0 {
        Seq::empty()
    } else {
        let before = unknown_fields(extras.drop_last());
        if rooms_key(extras.last().key@) is Unknown {
            before.push(ConfigWarningView::UnknownField(extras.last().key@))
        } else {
            before
        }
    }
}

/// One warning for each entry whose key is a room id and whose value is no valid override.
pub open spec fn invalid_overrides(extras: Seq<RawRoomsEntry>) -> Seq<ConfigWarningView>
    decreases extras.len(),
{
    if extras.len() == 0 {
        Seq::empty()
    } else {
        let before = invalid_overrides(extras.drop_last());
        if rooms_key(extras.last().key@) is Override && extras.last().as_override is None {
            before.push(ConfigWarningView::InvalidOverride(extras.last().key@))
        } else {
            before
        }
    }
}

/// All warnings about a rooms table.
pub open spec fn rooms_warnings(raw: RawRoomsSection) -> Seq<ConfigWarningView> {
    unknown_fields(raw.extras@) + (if raw.defaults is None {
        seq![ConfigWarningView::InvalidDefaults]
    } else {
        seq![]
    }) + invalid_overrides(raw.extras@)
}

/// The settings of rooms: those of all rooms, and the overrides by room id.
#[derive(Debug)]
pub struct RoomsSection {
    pub defaults: RoomConfig,
    pub overrides: StringTable<RoomOverride>,
}

/// What a `RoomsSection` says.
#[verifier::ext_equal]
pub struct RoomsSectionView {
    pub defaults: RoomConfigView,
    pub overrides: Map<Seq<char>, RoomOverrideView>,
}

/// What a table of overrides says.
pub open spec fn override_views(m: Map<Seq<char>, RoomOverride>) -> Map<
    Seq<char>,
    RoomOverrideView,
> {
    m.map_values(|o: RoomOverride| o@)
}

impl View for RoomsSection {
    type V = RoomsSectionView;

    open spec fn view(&self) -> RoomsSectionView {
        RoomsSectionView {
            defaults: self.defaults@,
            overrides: override_views(self.overrides@),
        }
    }
}

impl Default for RoomsSection {
    fn default() -> (r: Self)
        ensures
            r@ == (RoomsSectionView { defaults: RoomConfigView::rooms(), overrides: Map::empty() }),
    {
        let r = RoomsSection { defaults: RoomConfig::default_rooms(), overrides: StringTable::new() };
        assert(r@.overrides =~= Map::<Seq<char>, RoomOverrideView>::empty());
        r
    }
}

impl Clone for RoomsSection {
    fn clone(&self) -> (r: Self)
        ensures
            r@ == self@,
    {
        let r = RoomsSection { defaults: self.defaults.clone(), overrides: self.overrides.clone() };
        assert(r@.overrides =~= self@.overrides);
        r
    }
}

impl RoomsSection {
    /// Sorts the entries of a rooms table into overrides and warnings. Where the settings in
    /// the table are invalid, `default` holds.
    pub fn from_raw(raw: RawRoomsSection, default: RoomConfig) -> (r: (Self, Vec<ConfigWarning>))
        ensures
            r.0@.defaults == match raw.defaults {
                Some(c) => c@,
                None => default@,
            },
            r.0@.overrides == overrides_of(raw.extras@),
            warning_views(r.1@) == rooms_warnings(raw),
    {
        let mut warnings: Vec<ConfigWarning> = Vec::new();
        let mut invalid: Vec<ConfigWarning> = Vec::new();
        let mut overrides: StringTable<RoomOverride> = StringTable::new();
        let extras = raw.extras;
        let mut i: usize = 0;
        proof {
            assert(extras@.take(0) =~= Seq::<RawRoomsEntry>::empty());
            assert(override_views(overrides@) =~= Map::<Seq<char>, RoomOverrideView>::empty());
        }
        while i < extras.len()
            invariant
                i <= extras.len(),
                override_views(overrides@) == overrides_of(extras@.take(i as int)),
                warning_views(warnings@) == unknown_fields(extras@.take(i as int)),
                warning_views(invalid@) == invalid_overrides(extras@.take(i as int)),
            decreases extras.len() - i,
        {
            let ghost o_before = overrides@;
            let ghost w_before = warnings@;
            let ghost n_before = invalid@;
            let entry = &extras[i];
            match classify_rooms_key(entry.key.as_str()) {
                RoomsKey::Setting => {},
                RoomsKey::Override => {
                    match &entry.as_override {
                        Some(o) => {
                            overrides.insert(entry.key.clone(), o.clone());
                        },
                        None => {
                            invalid.push(ConfigWarning::InvalidOverride(entry.key.clone()));
                        },
                    }
                },
                RoomsKey::Unknown => {
                    warnings.push(ConfigWarning::UnknownField(entry.key.clone()));
                },
            }
            proof {
                let e = extras@[i as int];
                let t = extras@.take(i + 1);
                assert(t.drop_last() =~= extras@.take(i as int));
                assert(t.last() == e);
                assert(override_views(overrides@) =~= overrides_of(t)) by {
                    if e.as_override is Some && rooms_key(e.key@) is Override {
                        let o = overrides@[e.key@];
                        assert(override_views(overrides@) =~= override_views(o_before).insert(
                            e.key@,
                            o@,
                        ));
                    }
                }
                assert(warning_views(warnings@) =~= unknown_fields(t));
                assert(warning_views(invalid@) =~= invalid_overrides(t));
            }
            i += 1;
        }
        proof {
            assert(extras@.take(extras@.len() as int) =~= extras@);
        }
        let ghost head = warnings@;
        let defaults = match raw.defaults {
            Some(c) => c,
            None => {
                warnings.push(ConfigWarning::InvalidDefaults);
                default
            },
        };
        let ghost mid = warnings@;
        let ghost tail = invalid@;
        warnings.append(&mut invalid);
        proof {
            assert(warnings@ == mid + tail);
            assert(warning_views(warnings@) =~= rooms_warnings(raw));
        }
        (RoomsSection { defaults, overrides }, warnings)
    }
}

/// Senders whose noise level is forced, whatever the rooms say.
#[derive(Debug)]
pub struct SenderFilters {
    pub noisy: Vec<String>,
    pub silent: Vec<String>,
    pub off: Vec<String>,
}

/// What a `SenderFilters` says.
#[verifier::ext_equal]
pub struct SenderFiltersView {
    pub noisy: Seq<Seq<char>>,
    pub silent: Seq<Seq<char>>,
    pub off: Seq<Seq<char>>,
}

impl View for SenderFilters {
    type V = SenderFiltersView;

    open spec fn view(&self) -> SenderFiltersView {
        SenderFiltersView {
            noisy: texts(self.noisy@),
            silent: texts(self.silent@),
            off: texts(self.off@),
        }
    }
}

impl SenderFiltersView {
    /// No sender listed.
    pub open spec fn nobody() -> SenderFiltersView {
        SenderFiltersView { noisy: Seq::empty(), silent: Seq::empty(), off: Seq::empty() }
    }

    /// Whether one of the lists names the sender.
    pub open spec fn lists(self, sender: Seq<char>) -> bool {
        self.noisy.contains(sender) || self.silent.contains(sender) || self.off.contains(sender)
    }
}

impl Default for SenderFilters {
    fn default() -> (r: Self)
        ensures
            r@ == SenderFiltersView::nobody(),
    {
        let r = SenderFilters { noisy: Vec::new(), silent: Vec::new(), off: Vec::new() };
        assert(r@ =~= SenderFiltersView::nobody());
        r
    }
}

impl Clone for SenderFilters {
    fn clone(&self) -> (r: Self)
        ensures
            r@ == self@,
    {
        SenderFilters {
            noisy: copy_list(&self.noisy),
            silent: copy_list(&self.silent),
            off: copy_list(&self.off),
        }
    }
}

impl SenderFilters {
    /// Whether one of the lists names the sender. Such senders bypass the debounce.
    pub fn contains(&self, sender: &str) -> (r: bool)
        ensures
            r == self@.lists(sender@),
    {
        list_has(&self.noisy, sender) || list_has(&self.silent, sender) || list_has(
            &self.off,
            sender,
        )
    }
}

/// The sound of noisy notifications where none is configured.
pub open spec fn sound_of(platform: Platform) -> Seq<char> {
    match platform {
        Platform::Macos => "Blow"@,
        _ => "message-new-instant"@,
    }
}

/// The sound of noisy notifications where none is configured: a system sound on macOS, an
/// XDG sound name elsewhere.
pub fn default_sound(platform: Platform) -> (r: String)
    ensures
        r@ == sound_of(platform),
{
    match platform {
        Platform::Macos => "Blow".to_owned(),
        _ => "message-new-instant".to_owned(),
    }
}

/// The notifications section as it was read.
#[derive(Debug)]
pub struct RawNotificationConfig {
    pub enabled: bool,
    pub sound: String,
    pub invites: NotifyLevel,
    pub dms: RoomOverride,
    pub rooms: RawRoomsSection,
    pub senders: SenderFilters,
}

impl RawNotificationConfig {
    /// The section where the file says nothing.
    pub fn for_platform(platform: Platform) -> (r: Self)
        ensures
            r.enabled,
            r.sound@ == sound_of(platform),
            r.invites == NotifyLevel::Noisy,
            r.dms@ == RoomOverrideView::nothing(),
            r.rooms.extras@ == Seq::<RawRoomsEntry>::empty(),
            r.rooms.defaults is Some && r.rooms.defaults->0@ == RoomConfigView::rooms(),
            r.senders@ == SenderFiltersView::nobody(),
    {
        RawNotificationConfig {
            enabled: true,
            sound: default_sound(platform),
            invites: NotifyLevel::Noisy,
            dms: RoomOverride::default(),
            rooms: RawRoomsSection::default(),
            senders: SenderFilters::default(),
        }
    }
}

impl Default for RawNotificationConfig {
    /// What holds without a configuration on Linux; `for_platform` gives what holds elsewhere.
    fn default() -> (r: Self)
        ensures
            r.enabled,
            r.sound@ == sound_of(Platform::Linux),
            r.invites == NotifyLevel::Noisy,
            r.dms@ == RoomOverrideView::nothing(),
            r.rooms.extras@ == Seq::<RawRoomsEntry>::empty(),
            r.rooms.defaults is Some && r.rooms.defaults->0@ == RoomConfigView::rooms(),
            r.senders@ == SenderFiltersView::nobody(),
    {
        Self::for_platform(Platform::Linux)
    }
}

/// What is announced, and how.
#[derive(Debug)]
pub struct NotificationConfig {
    pub enabled: bool,
    pub sound: String,
    pub invites: NotifyLevel,
    pub dms: RoomConfig,
    pub rooms: RoomsSection,
    pub senders: SenderFilters,
}

/// What a `NotificationConfig` says.
#[verifier::ext_equal]
pub struct NotificationConfigView {
    pub enabled: bool,
    pub sound: Seq<char>,
    pub invites: NotifyLevel,
    pub dms: RoomConfigView,
    pub rooms: RoomsSectionView,
    pub senders: SenderFiltersView,
}

impl View for NotificationConfig {
    type V = NotificationConfigView;

    open spec fn view(&self) -> NotificationConfigView {
        NotificationConfigView {
            enabled: self.enabled,
            sound: self.sound@,
            invites: self.invites,
            dms: self.dms@,
            rooms: self.rooms@,
            senders: self.senders@,
        }
    }
}

impl NotificationConfigView {
    /// The settings where nothing is configured.
    pub open spec fn unconfigured(platform: Platform) -> NotificationConfigView {
        NotificationConfigView {
            enabled: true,
            sound: sound_of(platform),
            invites: NotifyLevel::Noisy,
            dms: RoomConfigView::dms(),
            rooms: RoomsSectionView { defaults: RoomConfigView::rooms(), overrides: Map::empty() },
            senders: SenderFiltersView::nobody(),
        }
    }

    /// The settings of a room before its override.
    pub open spec fn base_for(self, is_direct: bool) -> RoomConfigView {
        if is_direct {
            self.dms
        } else {
            self.rooms.defaults
        }
    }

    /// The settings that hold for a room.
    pub open spec fn effective(self, room_id: Seq<char>, is_direct: bool) -> RoomConfigView {
        if self.rooms.overrides.contains_key(room_id) {
            self.rooms.overrides[room_id].applied_to(self.base_for(is_direct))
        } else {
            self.base_for(is_direct)
        }
    }
}

impl NotificationConfig {
    /// The settings where nothing is configured.
    pub fn for_platform(platform: Platform) -> (r: Self)
        ensures
            r@ == NotificationConfigView::unconfigured(platform),
    {
        NotificationConfig {
            enabled: true,
            sound: default_sound(platform),
            invites: NotifyLevel::Noisy,
            dms: RoomConfig::default_dms(),
            rooms: RoomsSection::default(),
            senders: SenderFilters::default(),
        }
    }

    /// The settings that hold for a room: those of direct chats or of rooms, with the
    /// override of the room applied.
    pub fn effective_for(&self, room_id: &str, is_direct: bool) -> (r: RoomConfig)
        ensures
            r@ == self@.effective(room_id@, is_direct),
    {
        let base = if is_direct {
            self.dms.clone()
        } else {
            self.rooms.defaults.clone()
        };
        match self.rooms.overrides.get(room_id) {
            Some(o) => o.apply_to(base),
            None => base,
        }
    }
}

impl Default for NotificationConfig {
    /// What holds without a configuration on Linux; `for_platform` gives what holds elsewhere.
    fn default() -> (r: Self)
        ensures
            r@ == NotificationConfigView::unconfigured(Platform::Linux),
    {
        Self::for_platform(Platform::Linux)
    }
}

impl Clone for NotificationConfig {
    fn clone(&self) -> (r: Self)
        ensures
            r@ == self@,
    {
        NotificationConfig {
            enabled: self.enabled,
            sound: self.sound.clone(),
            invites: self.invites,
            dms: self.dms.clone(),
            rooms: self.rooms.clone(),
            senders: self.senders.clone(),
        }
    }
}

/// When nothing is announced: from `start` to `end`, each a clock time such as `23:00`.
#[derive(Debug)]
pub struct QuietHoursConfig {
    pub enabled: bool,
    pub start: String,
    pub end: String,
    pub timezone: String,
}

/// What a `QuietHoursConfig` says.
#[verifier::ext_equal]
pub struct QuietHoursView {
    pub enabled: bool,
    pub start: Seq<char>,
    pub end: Seq<char>,
    pub timezone: Seq<char>,
}

impl View for QuietHoursConfig {
    type V = QuietHoursView;

    open spec fn view(&self) -> QuietHoursView {
        QuietHoursView {
            enabled: self.enabled,
            start: self.start@,
            end: self.end@,
            timezone: self.timezone@,
        }
    }
}

impl QuietHoursView {
    /// Quiet hours where nothing is configured.
    pub open spec fn unconfigured() -> QuietHoursView {
        QuietHoursView { enabled: false, start: "23:00"@, end: "07:00"@, timezone: "local"@ }
    }
}

impl Default for QuietHoursConfig {
    fn default() -> (r: Self)
        ensures
            r@ == QuietHoursView::unconfigured(),
    {
        QuietHoursConfig {
            enabled: false,
            start: "23:00".to_owned(),
            end: "07:00".to_owned(),
            timezone: "local".to_owned(),
        }
    }
}

impl Clone for QuietHoursConfig {
    fn clone(&self) -> (r: Self)
        ensures
            r@ == self@,
    {
        QuietHoursConfig {
            enabled: self.enabled,
            start: self.start.clone(),
            end: self.end.clone(),
            timezone: self.timezone.clone(),
        }
    }
}

/// How the daemon behaves beyond levels.
#[derive(Debug)]
pub struct BehaviorConfig {
    pub show_message_body: bool,
    pub max_body_length: usize,
    pub max_event_age_secs: u64,
    pub quiet_hours: QuietHoursConfig,
}

/// What a `BehaviorConfig` says.
#[verifier::ext_equal]
pub struct BehaviorConfigView {
    pub show_message_body: bool,
    pub max_body_length: nat,
    pub max_event_age_secs: u64,
    pub quiet_hours: QuietHoursView,
}

impl View for BehaviorConfig {
    type V = BehaviorConfigView;

    open spec fn view(&self) -> BehaviorConfigView {
        BehaviorConfigView {
            show_message_body: self.show_message_body,
            max_body_length: self.max_body_length as nat,
            max_event_age_secs: self.max_event_age_secs,
            quiet_hours: self.quiet_hours@,
        }
    }
}

impl BehaviorConfigView {
    /// The behavior where nothing is configured.
    pub open spec fn unconfigured() -> BehaviorConfigView {
        BehaviorConfigView {
            show_message_body: true,
            max_body_length: 300,
            max_event_age_secs: 60,
            quiet_hours: QuietHoursView::unconfigured(),
        }
    }
}

impl Default for BehaviorConfig {
    fn default() -> (r: Self)
        ensures
            r@ == BehaviorConfigView::unconfigured(),
    {
        BehaviorConfig {
            show_message_body: true,
            max_body_length: 300,
            max_event_age_secs: 60,
            quiet_hours: QuietHoursConfig::default(),
        }
    }
}

impl Clone for BehaviorConfig {
    fn clone(&self) -> (r: Self)
        ensures
            r@ == self@,
    {
        BehaviorConfig {
            show_message_body: self.show_message_body,
            max_body_length: self.max_body_length,
            max_event_age_secs: self.max_event_age_secs,
            quiet_hours: self.quiet_hours.clone(),
        }
    }
}

/// The configuration file as it was read.
#[derive(Debug)]
pub struct RawConfig {
    pub notifications: RawNotificationConfig,
    pub behavior: BehaviorConfig,
}

impl Default for RawConfig {
    /// What an empty configuration file says on Linux.
    fn default() -> (r: Self)
        ensures
            r.notifications.enabled,
            r.notifications.sound@ == sound_of(Platform::Linux),
            r.notifications.invites == NotifyLevel::Noisy,
            r.notifications.dms@ == RoomOverrideView::nothing(),
            r.notifications.rooms.extras@ == Seq::<RawRoomsEntry>::empty(),
            r.notifications.rooms.defaults is Some && r.notifications.rooms.defaults->0@
                == RoomConfigView::rooms(),
            r.notifications.senders@ == SenderFiltersView::nobody(),
            r.behavior@ == BehaviorConfigView::unconfigured(),
    {
        RawConfig {
            notifications: RawNotificationConfig::default(),
            behavior: BehaviorConfig::default(),
        }
    }
}

/// The whole configuration.
#[derive(Debug)]
pub struct Config {
    pub notifications: NotificationConfig,
    pub behavior: BehaviorConfig,
}

/// What a `Config` says.
#[verifier::ext_equal]
pub struct ConfigView {
    pub notifications: NotificationConfigView,
    pub behavior: BehaviorConfigView,
}

impl View for Config {
    type V = ConfigView;

    open spec fn view(&self) -> ConfigView {
        ConfigView { notifications: self.notifications@, behavior: self.behavior@ }
    }
}

impl ConfigView {
    /// The configuration where there is no file.
    pub open spec fn unconfigured(platform: Platform) -> ConfigView {
        ConfigView {
            notifications: NotificationConfigView::unconfigured(platform),
            behavior: BehaviorConfigView::unconfigured(),
        }
    }

    /// The configuration that a file gives. The direct chats section overrides the defaults
    /// of direct chats.
    pub open spec fn of_raw(raw: RawConfig) -> ConfigView {
        ConfigView {
            notifications: NotificationConfigView {
                enabled: raw.notifications.enabled,
                sound: raw.notifications.sound@,
                invites: raw.notifications.invites,
                dms: raw.notifications.dms@.applied_to(RoomConfigView::dms()),
                rooms: RoomsSectionView {
                    defaults: match raw.notifications.rooms.defaults {
                        Some(c) => c@,
                        None => RoomConfigView::rooms(),
                    },
                    overrides: overrides_of(raw.notifications.rooms.extras@),
                },
                senders: raw.notifications.senders@,
            },
            behavior: raw.behavior@,
        }
    }
}

impl Config {
    /// The configuration where there is no file.
    pub fn for_platform(platform: Platform) -> (r: Self)
        ensures
            r@ == ConfigView::unconfigured(platform),
    {
        Config {
            notifications: NotificationConfig::for_platform(platform),
            behavior: BehaviorConfig::default(),
        }
    }

    /// The configuration that a file gives, and what in it was passed over.
    pub fn from_raw(raw: RawConfig) -> (r: (Self, Vec<ConfigWarning>))
        ensures
            r.0@ == ConfigView::of_raw(raw),
            warning_views(r.1@) == rooms_warnings(raw.notifications.rooms),
    {
        let RawConfig { notifications, behavior } = raw;
        let dms = notifications.dms.apply_to(RoomConfig::default_dms());
        let (rooms, warnings) = RoomsSection::from_raw(
            notifications.rooms,
            RoomConfig::default_rooms(),
        );
        let config = Config {
            notifications: NotificationConfig {
                enabled: notifications.enabled,
                sound: notifications.sound,
                invites: notifications.invites,
                dms,
                rooms,
                senders: notifications.senders,
            },
            behavior,
        };
        (config, warnings)
    }

    /// The configuration that a file gives, or that holds where there is none (`file` is
    /// `None`), and what in it was passed over.
    pub fn load(file: Option<RawConfig>, platform: Platform) -> (r: (Self, Vec<ConfigWarning>))
        ensures
            match file {
                Some(raw) => r.0@ == ConfigView::of_raw(raw) && warning_views(r.1@)
                    == rooms_warnings(raw.notifications.rooms),
                None => r.0@ == ConfigView::unconfigured(platform) && r.1@.len() == 0,
            },
    {
        match file {
            Some(raw) => Config::from_raw(raw),
            None => (Config::for_platform(platform), Vec::new()),
        }
    }
}

impl Default for Config {
    /// What holds without a configuration on Linux; `for_platform` gives what holds elsewhere.
    fn default() -> (r: Self)
        ensures
            r@ == ConfigView::unconfigured(Platform::Linux),
    {
        Self::for_platform(Platform::Linux)
    }
}

impl Clone for Config {
    fn clone(&self) -> (r: Self)
        ensures
            r@ == self@,
    {
        Config {
            notifications: self.notifications.clone(),
            behavior: self.behavior.clone(),
        }
    }
}

/// The path given on the command line comes first, then the one in the environment, then
/// the default.
pub open spec fn chosen_path<P>(cli: Option<P>, environment: Option<P>, default: P) -> P {
    match cli {
        Some(p) => p,
        None => set_or(environment, default),
    }
}

impl Config {
    /// Where the configuration file is: as the command line says, else as the environment
    /// says, else at the default place.
    pub fn resolve_config_path<P>(cli: Option<P>, environment: Option<P>, default: P) -> (r: P)
        ensures
            r == chosen_path(cli, environment, default),
    {
        match cli {
            Some(p) => p,
            None => match environment {
                Some(p) => p,
                None => default,
            },
        }
    }

    /// Where the data directory is: as the command line says, else as the environment says,
    /// else at the default place.
    pub fn resolve_data_dir<P>(cli: Option<P>, environment: Option<P>, default: P) -> (r: P)
        ensures
            r == chosen_path(cli, environment, default),
    {
        match cli {
            Some(p) => p,
            None => match environment {
                Some(p) => p,
                None => default,
            },
        }
    }
}

} // verus!
