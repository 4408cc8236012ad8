//! What the daemon remembers: events it has seen, notifications it has posted, and when.
use vstd::hash_set::StringHashSet;
use vstd::prelude::*;

use std::collections::VecDeque;

use crate::clock::Clock;
use crate::ids::UserId;
use crate::table::StringTable;
use crate::text::{opt_text, same_text, texts};

verus! {

/// How many notifications are remembered for one room.
pub const NOTIF_HISTORY_CAP: usize = 100;

/// How long a notification is remembered, in seconds: seven days.
pub const NOTIF_HISTORY_TTL_SECS: u64 = 604_800;

/// How often forgotten notifications are cleaned up, in seconds: hourly.
pub const NOTIF_CLEANUP_INTERVAL_SECS: u64 = 3_600;

/// How many events are remembered as seen.
pub const SEEN_EVENTS_CAP: usize = 10_000;

/// Nanoseconds in a second.
pub const NANOS_PER_SEC: u128 = 1_000_000_000;

/// A notification that was posted and not yet dismissed.
#[derive(Debug)]
pub struct NotifEntry {
    /// When it was posted, on the monotonic clock of the daemon, in nanoseconds.
    sent_at: u128,
    tag: String,
    event_id: String,
    /// When the event was sent, in seconds since the Unix epoch.
    event_ts: i64,
}

/// What a `NotifEntry` says.
#[verifier::ext_equal]
pub struct NotifEntryView {
    pub sent_at: int,
    pub tag: Seq<char>,
    pub event_id: Seq<char>,
    pub event_ts: int,
}

impl View for NotifEntry {
    type V = NotifEntryView;

    closed spec fn view(&self) -> NotifEntryView {
        NotifEntryView {
            sent_at: self.sent_at as int,
            tag: self.tag@,
            event_id: self.event_id@,
            event_ts: self.event_ts as int,
        }
    }
}

/// What a list of entries says.
pub open spec fn entry_views(v: Seq<NotifEntry>) -> Seq<NotifEntryView> {
    Seq::new(v.len(), |i: int| v[i]@)
}

/// The tags of a list of entries.
pub open spec fn tags_of(entries: Seq<NotifEntryView>) -> Seq<Seq<char>> {
    Seq::new(entries.len(), |i: int| entries[i].tag)
}

/// The time from one reading of the clock to another, or nothing where the other is earlier.
pub open spec fn elapsed(from: int, to: int) -> int {
    if to > from {
        to - from
    } else {
        0
    }
}

/// Whether the entry has been remembered long enough.
pub open spec fn expired(entry: NotifEntryView, now: int) -> bool {
    elapsed(entry.sent_at, now) > NOTIF_HISTORY_TTL_SECS * NANOS_PER_SEC
}

/// The entries without the expired ones at the front.
pub open spec fn pruned(entries: Seq<NotifEntryView>, now: int) -> Seq<NotifEntryView>
    decreases entries.len(),
{
    if entries.len() > 0 && expired(entries[0], now) {
        pruned(entries.skip(1), now)
    } else {
        entries
    }
}

/// The entries without the oldest where there are too many.
pub open spec fn capped(entries: Seq<NotifEntryView>) -> Seq<NotifEntryView> {
    if entries.len() > NOTIF_HISTORY_CAP {
        entries.skip(1)
    } else {
        entries
    }
}

/// The position of the first entry that satisfies the predicate, or their number.
pub open spec fn first_where(
    entries: Seq<NotifEntryView>,
    wanted: spec_fn(NotifEntryView) -> bool,
) -> int
    decreases entries.len(),
{
    if entries.len() == 0 || wanted(entries[0]) {
        0
    } else {
        1 + first_where(entries.skip(1), wanted)
    }
}

/// Whether the entries stand in the order in which they were posted.
pub open spec fn in_order(entries: Seq<NotifEntryView>) -> bool {
    forall|i: int, j: int|
        0 <= i <= j < entries.len() ==> (#[trigger] entries[i]).sent_at <= (
        #[trigger] entries[j]).sent_at
}

/// The entries that a read receipt for `cutoff` covers.
pub open spec fn covered(entries: Seq<NotifEntryView>, cutoff: int) -> Seq<NotifEntryView> {
    entries.filter(|e: NotifEntryView| e.event_ts <= cutoff)
}

/// The entries that a read receipt for `cutoff` leaves.
pub open spec fn uncovered(entries: Seq<NotifEntryView>, cutoff: int) -> Seq<NotifEntryView> {
    entries.filter(|e: NotifEntryView| !(e.event_ts <= cutoff))
}

/// Posted notifications by room.
pub type History = Map<Seq<char>, Seq<NotifEntryView>>;

/// The entries of a room.
pub open spec fn entries_in(history: History, room_id: Seq<char>) -> Seq<NotifEntryView> {
    if history.contains_key(room_id) {
        history[room_id]
    } else {
        Seq::empty()
    }
}

/// The history with the entries of a room replaced. A room without entries is not kept.
pub open spec fn with_entries(
    history: History,
    room_id: Seq<char>,
    entries: Seq<NotifEntryView>,
) -> History {
    if entries.len() == 0 {
        history.remove(room_id)
    } else {
        history.insert(room_id, entries)
    }
}

/// What a `DaemonState` holds.
#[verifier::ext_equal]
pub struct DaemonStateView {
    pub own_user_id: Seq<char>,
    pub display_name: Option<Seq<char>>,
    pub initial_sync_done: bool,
    pub seen: Set<Seq<char>>,
    pub last_notif: Map<Seq<char>, int>,
    pub history: History,
    /// The latest reading of the clock that is remembered.
    pub latest: int,
}

impl DaemonStateView {
    /// Nothing seen and nothing posted yet.
    pub open spec fn fresh(own_user_id: Seq<char>) -> DaemonStateView {
        DaemonStateView {
            own_user_id,
            display_name: None,
            initial_sync_done: false,
            seen: Set::empty(),
            last_notif: Map::empty(),
            history: Map::empty(),
            latest: 0,
        }
    }

    /// What always holds: neither the seen events nor the notifications of a room exceed their
    /// number, no room is kept without a notification, those of a room stand in the order in
    /// which they were posted, and nothing is remembered of a time to come.
    pub open spec fn within_bounds(self) -> bool {
        &&& self.seen.finite()
        &&& self.seen.len() <= SEEN_EVENTS_CAP
        &&& forall|r: Seq<char>| #[trigger]
            self.history.contains_key(r) ==> 0 < self.history[r].len() <= NOTIF_HISTORY_CAP
                && in_order(self.history[r]) && self.history[r].last().sent_at <= self.latest
        &&& forall|r: Seq<char>| #[trigger]
            self.last_notif.contains_key(r) ==> self.last_notif[r] <= self.latest
    }

    /// Whether the event is new.
    pub open spec fn is_new(self, event_id: Seq<char>) -> bool {
        !self.seen.contains(event_id)
    }

    /// The event marked as seen. Where too many events are remembered, all others are forgotten.
    pub open spec fn marked_seen(self, event_id: Seq<char>) -> DaemonStateView {
        let seen = self.seen.insert(event_id);
        DaemonStateView {
            seen: if seen.len() > SEEN_EVENTS_CAP {
                set![event_id]
            } else {
                seen
            },
            ..self
        }
    }

    /// The notification remembered. Expired notifications of the room are forgotten, and the
    /// oldest where there are too many.
    pub open spec fn recorded(
        self,
        room_id: Seq<char>,
        tag: Seq<char>,
        event_id: Seq<char>,
        event_ts: int,
        now: int,
    ) -> DaemonStateView {
        let entry = NotifEntryView { sent_at: now, tag, event_id, event_ts };
        let entries = with_new_entry(entries_in(self.history, room_id), entry, now);
        DaemonStateView {
            history: self.history.insert(room_id, entries),
            latest: now,
            ..self
        }
    }

    /// Where the first notification for the event stands in the room.
    pub open spec fn position_of_event(self, room_id: Seq<char>, event_id: Seq<char>) -> int {
        first_where(
            entries_in(self.history, room_id),
            |e: NotifEntryView| e.event_id == event_id,
        )
    }

    /// Where the first notification with the tag stands in the room.
    pub open spec fn position_of_tag(self, room_id: Seq<char>, tag: Seq<char>) -> int {
        first_where(entries_in(self.history, room_id), |e: NotifEntryView| e.tag == tag)
    }

    /// The tag of the first notification for the event in the room.
    pub open spec fn tag_for(self, room_id: Seq<char>, event_id: Seq<char>) -> Option<Seq<char>> {
        let entries = entries_in(self.history, room_id);
        let at = self.position_of_event(room_id, event_id);
        if at < entries.len() {
            Some(entries[at].tag)
        } else {
            None
        }
    }

    /// Whether a notification with the tag is remembered for the room.
    pub open spec fn has_tag(self, room_id: Seq<char>, tag: Seq<char>) -> bool {
        self.position_of_tag(room_id, tag) < entries_in(self.history, room_id).len()
    }

    /// The notification at the position forgotten, where there is one.
    pub open spec fn without(self, room_id: Seq<char>, at: int) -> DaemonStateView {
        let entries = entries_in(self.history, room_id);
        if at < entries.len() {
            DaemonStateView {
                history: with_entries(self.history, room_id, entries.remove(at)),
                ..self
            }
        } else {
            self
        }
    }

    /// All notifications of the room forgotten.
    pub open spec fn drained(self, room_id: Seq<char>) -> DaemonStateView {
        DaemonStateView { history: self.history.remove(room_id), ..self }
    }

    /// The notifications of the room that a read receipt covers forgotten.
    pub open spec fn drained_up_to(self, room_id: Seq<char>, cutoff: int) -> DaemonStateView {
        if self.history.contains_key(room_id) {
            DaemonStateView {
                history: with_entries(
                    self.history,
                    room_id,
                    uncovered(self.history[room_id], cutoff),
                ),
                ..self
            }
        } else {
            self
        }
    }

    /// Expired notifications of all rooms forgotten.
    pub open spec fn cleaned_up(self, now: int) -> DaemonStateView {
        DaemonStateView {
            history: Map::new(
                |r: Seq<char>|
                    self.history.contains_key(r) && pruned(self.history[r], now).len() > 0,
                |r: Seq<char>| pruned(self.history[r], now),
            ),
            latest: now,
            ..self
        }
    }

    /// Whether less than `debounce_seconds` have passed since the last notification in the room.
    pub open spec fn debounced(
        self,
        room_id: Seq<char>,
        debounce_seconds: int,
        now: int,
    ) -> bool {
        debounce_seconds != 0 && self.last_notif.contains_key(room_id) && elapsed(
            self.last_notif[room_id],
            now,
        ) < debounce_seconds * NANOS_PER_SEC
    }

    /// The moment of the last notification in the room remembered.
    pub open spec fn notified(self, room_id: Seq<char>, now: int) -> DaemonStateView {
        DaemonStateView {
            last_notif: self.last_notif.insert(room_id, now),
            latest: now,
            ..self
        }
    }

    /// Whether a notification that asks for sound gets it.
    pub open spec fn sound_after_debounce(
        self,
        room_id: Seq<char>,
        debounce_seconds: int,
        bypass: bool,
        play_sound: bool,
        now: int,
    ) -> bool {
        play_sound && (bypass || !self.debounced(room_id, debounce_seconds, now))
    }
}

/// What the daemon remembers.
pub struct DaemonState {
    own_user_id: UserId,
    display_name: Option<String>,
    initial_sync_done: bool,
    seen_events: StringHashSet,
    last_notif_per_room: StringTable<u128>,
    notifications_by_room: StringTable<VecDeque<NotifEntry>>,
    latest: u128,
    clock: Clock,
}

/// What a table of moments holds.
spec fn moments(m: Map<Seq<char>, u128>) -> Map<Seq<char>, int> {
    m.map_values(|t: u128| t as int)
}

/// What a table of entries holds.
spec fn history_of(m: Map<Seq<char>, VecDeque<NotifEntry>>) -> History {
    m.map_values(|d: VecDeque<NotifEntry>| entry_views(d@))
}

impl View for DaemonState {
    type V = DaemonStateView;

    closed spec fn view(&self) -> DaemonStateView {
        DaemonStateView {
            own_user_id: self.own_user_id@,
            display_name: opt_text(self.display_name),
            initial_sync_done: self.initial_sync_done,
            seen: self.seen_events@,
            last_notif: moments(self.last_notif_per_room@),
            history: history_of(self.notifications_by_room@),
            latest: self.latest as int,
        }
    }
}

/// What a scan found is the first entry that satisfies the predicate.
pub proof fn lemma_first_where(
    entries: Seq<NotifEntryView>,
    wanted: spec_fn(NotifEntryView) -> bool,
    at: int,
)
    requires
        0 <= at <= entries.len(),
        forall|j: int| 0 <= j < at ==> !wanted(#[trigger] entries[j]),
        at < entries.len() ==> wanted(entries[at]),
    ensures
        first_where(entries, wanted) == at,
    decreases entries.len(),
{
    if at > 0 {
        let rest = entries.skip(1);
        assert forall|j: int| 0 <= j < at - 1 implies !wanted(#[trigger] rest[j]) by {
            assert(rest[j] == entries[j + 1]);
        }
        lemma_first_where(rest, wanted, at - 1);
    }
}

/// The first entry that satisfies the predicate: none before it does.
pub proof fn first_where_is_first(
    entries: Seq<NotifEntryView>,
    wanted: spec_fn(NotifEntryView) -> bool,
)
    ensures
        0 <= first_where(entries, wanted) <= entries.len(),
        forall|j: int|
            0 <= j < first_where(entries, wanted) && j < entries.len() ==> !wanted(
                #[trigger] entries[j],
            ),
        first_where(entries, wanted) < entries.len() ==> wanted(
            entries[first_where(entries, wanted)],
        ),
    decreases entries.len(),
{
    if entries.len() > 0 && !wanted(entries[0]) {
        let rest = entries.skip(1);
        first_where_is_first(rest, wanted);
        assert forall|j: int|
            0 <= j < first_where(entries, wanted) && j < entries.len() implies !wanted(
            #[trigger] entries[j],
        ) by {
            if j > 0 {
                assert(rest[j - 1] == entries[j]);
            }
        }
    }
}

/// Pruning drops a number of entries at the front, all of them expired, and stops at one that is
/// not.
pub proof fn pruning_drops_a_front(entries: Seq<NotifEntryView>, now: int) -> (k: int)
    ensures
        0 <= k <= entries.len(),
        pruned(entries, now) == entries.skip(k),
        forall|i: int| 0 <= i < k ==> expired(#[trigger] entries[i], now),
        k < entries.len() ==> !expired(entries[k], now),
    decreases entries.len(),
{
    if entries.len() > 0 && expired(entries[0], now) {
        let rest = entries.skip(1);
        let k = pruning_drops_a_front(rest, now);
        assert(rest.skip(k) =~= entries.skip(k + 1));
        assert forall|i: int| 0 <= i < k + 1 implies expired(#[trigger] entries[i], now) by {
            if i > 0 {
                assert(rest[i - 1] == entries[i]);
            }
        }
        if k < rest.len() {
            assert(rest[k] == entries[k + 1]);
        }
        k + 1
    } else {
        assert(entries.skip(0) =~= entries);
        0
    }
}

/// The entries of a room once a notification is remembered.
pub open spec fn with_new_entry(
    entries: Seq<NotifEntryView>,
    entry: NotifEntryView,
    now: int,
) -> Seq<NotifEntryView> {
    capped(pruned(entries, now).push(entry))
}

/// A new notification comes last, behind what is left of the earlier ones, in their order.
pub proof fn new_entry_comes_last(
    entries: Seq<NotifEntryView>,
    entry: NotifEntryView,
    now: int,
) -> (k: int)
    ensures
        0 <= k <= entries.len(),
        with_new_entry(entries, entry, now) == entries.skip(k).push(entry),
{
    let k = pruning_drops_a_front(entries, now);
    let full = pruned(entries, now).push(entry);
    if full.len() > NOTIF_HISTORY_CAP {
        assert(full.skip(1) =~= entries.skip(k + 1).push(entry));
        k + 1
    } else {
        k
    }
}

/// Dropping entries leaves the others in order.
pub proof fn filter_keeps_order(entries: Seq<NotifEntryView>, keep: spec_fn(NotifEntryView) -> bool)
    requires
        in_order(entries),
    ensures
        in_order(entries.filter(keep)),
    decreases entries.len(),
{
    reveal(Seq::filter);
    if entries.len() > 0 {
        let init = entries.drop_last();
        filter_keeps_order(init, keep);
        assert forall|i: int| 0 <= i < init.filter(keep).len() implies (#[trigger] init.filter(
            keep,
        )[i]).sent_at <= entries.last().sent_at by {
            init.lemma_filter_contains_rev(keep, init.filter(keep)[i]);
            let j = choose|j: int| 0 <= j < init.len() && init[j] == init.filter(keep)[i];
            assert(entries[j].sent_at <= entries[entries.len() - 1].sent_at);
        }
    }
}

/// Remembering a notification keeps the bounds.
pub proof fn recording_keeps_bounds(
    state: DaemonStateView,
    room_id: Seq<char>,
    tag: Seq<char>,
    event_id: Seq<char>,
    event_ts: int,
    now: int,
)
    requires
        state.within_bounds(),
        now >= state.latest,
    ensures
        state.recorded(room_id, tag, event_id, event_ts, now).within_bounds(),
{
    let entry = NotifEntryView { sent_at: now, tag, event_id, event_ts };
    let before = entries_in(state.history, room_id);
    let k = new_entry_comes_last(before, entry, now);
    lemma_pruned_len(before, now);
    let after = state.recorded(room_id, tag, event_id, event_ts, now);
    assert(after.history[room_id] == before.skip(k).push(entry));
    assert forall|i: int| 0 <= i < before.len() implies (#[trigger] before[i]).sent_at <= now by {
        assert(before[i].sent_at <= before[before.len() - 1].sent_at);
    }
}

/// Forgetting a notification keeps the bounds.
pub proof fn removal_keeps_bounds(state: DaemonStateView, room_id: Seq<char>, at: int)
    requires
        state.within_bounds(),
        at >= 0,
    ensures
        state.without(room_id, at).within_bounds(),
{
    let before = entries_in(state.history, room_id);
    if at < before.len() {
        assert forall|i: int| 0 <= i < before.len() implies (#[trigger] before[i]).sent_at
            <= state.latest by {
            assert(before[i].sent_at <= before[before.len() - 1].sent_at);
        }
    }
}

/// Forgetting what a read receipt covers keeps the bounds.
pub proof fn draining_keeps_bounds(state: DaemonStateView, room_id: Seq<char>, cutoff: int)
    requires
        state.within_bounds(),
    ensures
        state.drained_up_to(room_id, cutoff).within_bounds(),
{
    if state.history.contains_key(room_id) {
        let keep = |e: NotifEntryView| !(e.event_ts <= cutoff);
        let before = state.history[room_id];
        let after = before.filter(keep);
        before.lemma_filter_len(keep);
        filter_keeps_order(before, keep);
        if after.len() > 0 {
            before.lemma_filter_contains_rev(keep, after.last());
            let i = choose|i: int| 0 <= i < before.len() && before[i] == after.last();
            assert(before[i].sent_at <= before[before.len() - 1].sent_at);
        }
    }
}

/// Forgetting what is expired keeps the bounds.
pub proof fn cleanup_keeps_bounds(state: DaemonStateView, now: int)
    requires
        state.within_bounds(),
        now >= state.latest,
    ensures
        state.cleaned_up(now).within_bounds(),
{
    let after = state.cleaned_up(now);
    assert forall|r: Seq<char>| #[trigger] after.history.contains_key(r) implies 0
        < after.history[r].len() <= NOTIF_HISTORY_CAP && in_order(after.history[r])
        && after.history[r].last().sent_at <= after.latest by {
        let k = pruning_drops_a_front(state.history[r], now);
        assert(after.history[r].last() == state.history[r].last());
    }
}

/// Filtering a sequence with one more element.
proof fn lemma_filter_push(
    s: Seq<NotifEntryView>,
    keep: spec_fn(NotifEntryView) -> bool,
    e: NotifEntryView,
)
    ensures
        s.push(e).filter(keep) == if keep(e) {
            s.filter(keep).push(e)
        } else {
            s.filter(keep)
        },
{
    reveal(Seq::filter);
    assert(s.push(e).drop_last() =~= s);
}

/// Drops the expired entries at the front.
fn prune(entries: &mut VecDeque<NotifEntry>, now: u128)
    ensures
        entry_views(final(entries)@) == pruned(entry_views(old(entries)@), now as int),
{
    let ghost whole = entry_views(entries@);
    while entries.len() > 0 && is_expired(&entries[0], now)
        invariant
            pruned(whole, now as int) == pruned(entry_views(entries@), now as int),
        decreases entries.len(),
    {
        let ghost before = entries@;
        let _ = entries.pop_front();
        assert(entry_views(entries@) =~= entry_views(before).skip(1));
    }
}

/// Whether the entry has been remembered long enough.
fn is_expired(entry: &NotifEntry, now: u128) -> (r: bool)
    ensures
        r == expired(entry@, now as int),
{
    let age: u128 = if now > entry.sent_at {
        now - entry.sent_at
    } else {
        0
    };
    age > NOTIF_HISTORY_TTL_SECS as u128 * NANOS_PER_SEC
}

impl DaemonState {
    /// A daemon of this user that has seen nothing yet.
    pub fn new(own_user_id: UserId) -> (s: Self)
        ensures
            s@ == DaemonStateView::fresh(own_user_id@),
            s@.within_bounds(),
    {
        let s = DaemonState {
            own_user_id,
            display_name: None,
            initial_sync_done: false,
            seen_events: StringHashSet::new(),
            last_notif_per_room: StringTable::new(),
            notifications_by_room: StringTable::new(),
            latest: 0,
            clock: Clock::start(),
        };
        assert(s@.last_notif =~= Map::<Seq<char>, int>::empty());
        assert(s@.history =~= Map::<Seq<char>, Seq<NotifEntryView>>::empty());
        s
    }

    /// The user of this daemon.
    pub fn own_user_id(&self) -> (r: &UserId)
        ensures
            r@ == self@.own_user_id,
    {
        &self.own_user_id
    }

    /// The display name of the user, where it is known.
    pub fn display_name(&self) -> (r: Option<&str>)
        ensures
            crate::filters::opt_str(r) == self@.display_name,
    {
        match &self.display_name {
            Some(name) => Some(name.as_str()),
            None => None,
        }
    }

    /// Remembers the display name of the user.
    pub fn set_display_name(&mut self, name: String)
        ensures
            final(self)@ == (DaemonStateView { display_name: Some(name@), ..old(self)@ }),
            old(self)@.within_bounds() ==> final(self)@.within_bounds(),
    {
        self.display_name = Some(name);
    }

    /// Whether the first sync is over. Before that nothing is announced.
    pub fn is_initial_sync_done(&self) -> (r: bool)
        ensures
            r == self@.initial_sync_done,
    {
        self.initial_sync_done
    }

    /// Notes that the first sync is over.
    pub fn set_initial_sync_done(&mut self)
        ensures
            final(self)@ == (DaemonStateView { initial_sync_done: true, ..old(self)@ }),
            old(self)@.within_bounds() ==> final(self)@.within_bounds(),
    {
        self.initial_sync_done = true;
    }

    /// Marks an event as seen and tells whether it was new. Where too many events are remembered,
    /// all others are forgotten.
    pub fn dedup(&mut self, event_id: &str) -> (r: bool)
        ensures
            r == old(self)@.is_new(event_id@),
            final(self)@ == old(self)@.marked_seen(event_id@),
            old(self)@.within_bounds() ==> final(self)@.within_bounds(),
    {
        let inserted = self.seen_events.insert(event_id.to_owned());
        if self.seen_events.len() > SEEN_EVENTS_CAP {
            self.seen_events.clear();
            let _ = self.seen_events.insert(event_id.to_owned());
        }
        inserted
    }

    /// Remembers a notification that was posted `now`.
    pub fn record_notif_at(
        &mut self,
        room_id: &str,
        tag: String,
        event_id: String,
        event_ts: i64,
        now: u128,
    )
        ensures
            final(self)@ == old(self)@.recorded(
                room_id@,
                tag@,
                event_id@,
                event_ts as int,
                now as int,
            ),
            old(self)@.within_bounds() && now >= old(self)@.latest ==> final(self)@.within_bounds(),
    {
        let ghost table = self.notifications_by_room@;
        let mut entries = match self.notifications_by_room.remove(room_id) {
            Some(entries) => entries,
            None => VecDeque::new(),
        };
        assert(entry_views(entries@) =~= entries_in(history_of(table), room_id@));
        prune(&mut entries, now);
        let ghost kept = entries@;
        let entry = NotifEntry { sent_at: now, tag, event_id, event_ts };
        entries.push_back(entry);
        assert(entry_views(entries@) =~= entry_views(kept).push(entry@));
        let ghost grown = entries@;
        if entries.len() > NOTIF_HISTORY_CAP {
            let _ = entries.pop_front();
            assert(entry_views(entries@) =~= entry_views(grown).skip(1));
        }
        self.notifications_by_room.insert(room_id.to_owned(), entries);
        self.latest = now;
        proof {
            assert(history_of(self.notifications_by_room@) =~= history_of(table).insert(
                room_id@,
                entry_views(entries@),
            ));
            if old(self)@.within_bounds() && now >= old(self)@.latest {
                recording_keeps_bounds(
                    old(self)@,
                    room_id@,
                    entry@.tag,
                    entry@.event_id,
                    event_ts as int,
                    now as int,
                );
            }
        }
    }

    /// Remembers a notification that was just posted.
    pub fn record_notif(&mut self, room_id: &str, tag: String, event_id: String, event_ts: i64)
        ensures
            exists|now: int|
                now >= old(self)@.latest && final(self)@ == #[trigger] old(self)@.recorded(
                    room_id@,
                    tag@,
                    event_id@,
                    event_ts as int,
                    now,
                ),
            old(self)@.within_bounds() ==> final(self)@.within_bounds(),
    {
        let now: u128 = self.now();
        self.record_notif_at(room_id, tag, event_id, event_ts, now);
    }

    /// The position of the first notification for the event among the entries.
    fn find_event(entries: &VecDeque<NotifEntry>, event_id: &str) -> (r: usize)
        ensures
            r as int == first_where(
                entry_views(entries@),
                |e: NotifEntryView| e.event_id == event_id@,
            ),
            r <= entries@.len(),
    {
        let ghost wanted = |e: NotifEntryView| e.event_id == event_id@;
        let mut i: usize = 0;
        while i < entries.len() && !same_text(entries[i].event_id.as_str(), event_id)
            invariant
                i <= entries@.len(),
                wanted == |e: NotifEntryView| e.event_id == event_id@,
                forall|j: int| 0 <= j < i ==> !wanted(#[trigger] entry_views(entries@)[j]),
            decreases entries.len() - i,
        {
            assert(entry_views(entries@)[i as int] == entries@[i as int]@);
            i += 1;
        }
        proof {
            lemma_first_where(entry_views(entries@), wanted, i as int);
        }
        i
    }

    /// The position of the first notification with the tag among the entries.
    fn find_tag(entries: &VecDeque<NotifEntry>, tag: &str) -> (r: usize)
        ensures
            r as int == first_where(entry_views(entries@), |e: NotifEntryView| e.tag == tag@),
            r <= entries@.len(),
    {
        let ghost wanted = |e: NotifEntryView| e.tag == tag@;
        let mut i: usize = 0;
        while i < entries.len() && !same_text(entries[i].tag.as_str(), tag)
            invariant
                i <= entries@.len(),
                wanted == |e: NotifEntryView| e.tag == tag@,
                forall|j: int| 0 <= j < i ==> !wanted(#[trigger] entry_views(entries@)[j]),
            decreases entries.len() - i,
        {
            assert(entry_views(entries@)[i as int] == entries@[i as int]@);
            i += 1;
        }
        proof {
            lemma_first_where(entry_views(entries@), wanted, i as int);
        }
        i
    }

    /// Whether anything is remembered of the room.
    pub fn remembers_room(&self, room_id: &str) -> (r: bool)
        ensures
            r == self@.history.contains_key(room_id@),
    {
        self.notifications_by_room.contains_key(room_id)
    }

    /// The tag under which an event of a room was announced.
    pub fn lookup_tag(&self, room_id: &str, event_id: &str) -> (r: Option<String>)
        ensures
            opt_text(r) == self@.tag_for(room_id@, event_id@),
    {
        match self.notifications_by_room.get(room_id) {
            Some(entries) => {
                let at = Self::find_event(entries, event_id);
                if at < entries.len() {
                    assert(entry_views(entries@)[at as int] == entries@[at as int]@);
                    Some(entries[at].tag.clone())
                } else {
                    None
                }
            },
            None => None,
        }
    }

    /// Forgets the notification for an event of a room and gives its tag.
    pub fn remove_by_event_id(&mut self, room_id: &str, event_id: &str) -> (r: Option<String>)
        ensures
            opt_text(r) == old(self)@.tag_for(room_id@, event_id@),
            final(self)@ == old(self)@.without(
                room_id@,
                old(self)@.position_of_event(room_id@, event_id@),
            ),
            old(self)@.within_bounds() ==> final(self)@.within_bounds(),
    {
        let at: usize = match self.notifications_by_room.get(room_id) {
            Some(entries) => {
                let at = Self::find_event(entries, event_id);
                if at >= entries.len() {
                    return None;
                }
                at
            },
            None => return None,
        };
        proof {
            if old(self)@.within_bounds() {
                removal_keeps_bounds(old(self)@, room_id@, at as int);
            }
        }
        match self.take_entry(room_id, at) {
            Some(entry) => Some(entry.tag),
            None => None,
        }
    }

    /// Forgets the notification of a room with the tag and tells whether there was one.
    pub fn remove_by_tag(&mut self, room_id: &str, tag: &str) -> (r: bool)
        ensures
            r == old(self)@.has_tag(room_id@, tag@),
            final(self)@ == old(self)@.without(
                room_id@,
                old(self)@.position_of_tag(room_id@, tag@),
            ),
            old(self)@.within_bounds() ==> final(self)@.within_bounds(),
    {
        let at: usize = match self.notifications_by_room.get(room_id) {
            Some(entries) => {
                let at = Self::find_tag(entries, tag);
                if at >= entries.len() {
                    return false;
                }
                at
            },
            None => return false,
        };
        proof {
            if old(self)@.within_bounds() {
                removal_keeps_bounds(old(self)@, room_id@, at as int);
            }
        }
        let _ = self.take_entry(room_id, at);
        true
    }

    /// Takes the entry at a position out of a room. A room without entries is not kept.
    fn take_entry(&mut self, room_id: &str, at: usize) -> (r: Option<NotifEntry>)
        requires
            old(self)@.history.contains_key(room_id@),
            at < old(self)@.history[room_id@].len(),
        ensures
            r is Some,
            r->0@ == old(self)@.history[room_id@][at as int],
            final(self)@ == old(self)@.without(room_id@, at as int),
    {
        let ghost table = self.notifications_by_room@;
        let mut entries = self.notifications_by_room.remove(room_id)?;
        let ghost before = entries@;
        let removed = entries.remove(at);
        proof {
            assert(entry_views(before)[at as int] == removed->0@);
            assert(entry_views(entries@) =~= entry_views(before).remove(at as int));
        }
        self.put_back(room_id, entries, Ghost(table));
        removed
    }

    /// Puts the entries of a room back that were taken out of the table. A room without
    /// entries is not kept.
    fn put_back(
        &mut self,
        room_id: &str,
        entries: VecDeque<NotifEntry>,
        Ghost(table): Ghost<Map<Seq<char>, VecDeque<NotifEntry>>>,
    )
        requires
            old(self).notifications_by_room@ == table.remove(room_id@),
            table.contains_key(room_id@),
        ensures
            final(self)@ == (DaemonStateView {
                history: if entries@.len() == 0 {
                    history_of(table).remove(room_id@)
                } else {
                    history_of(table).insert(room_id@, entry_views(entries@))
                },
                ..old(self)@
            }),
    {
        if entries.len() > 0 {
            self.notifications_by_room.insert(room_id.to_owned(), entries);
            assert(history_of(self.notifications_by_room@) =~= history_of(table).insert(
                room_id@,
                entry_views(entries@),
            ));
        } else {
            assert(history_of(self.notifications_by_room@) =~= history_of(table).remove(room_id@));
        }
    }

    /// Forgets all notifications of a room and gives their tags, oldest first.
    pub fn drain_room_tags(&mut self, room_id: &str) -> (r: Vec<String>)
        ensures
            texts(r@) == tags_of(entries_in(old(self)@.history, room_id@)),
            final(self)@ == old(self)@.drained(room_id@),
            old(self)@.within_bounds() ==> final(self)@.within_bounds(),
    {
        let ghost table = self.notifications_by_room@;
        let removed = self.notifications_by_room.remove(room_id);
        proof {
            assert(history_of(self.notifications_by_room@) =~= history_of(table).remove(room_id@));
        }
        let mut tags: Vec<String> = Vec::new();
        match removed {
            Some(entries) => {
                let mut i: usize = 0;
                while i < entries.len()
                    invariant
                        i <= entries.len(),
                        tags.len() == i,
                        forall|j: int| 0 <= j < i ==> tags@[j]@ == entries@[j].tag@,
                    decreases entries.len() - i,
                {
                    tags.push(entries[i].tag.clone());
                    i += 1;
                }
                assert(texts(tags@) =~= tags_of(entry_views(entries@)));
            },
            None => {
                assert(texts(tags@) =~= tags_of(Seq::empty()));
            },
        }
        tags
    }

    /// Forgets the notifications of a room for events up to `cutoff_ts` and gives their tags,
    /// oldest first.
    pub fn drain_room_tags_up_to(&mut self, room_id: &str, cutoff_ts: i64) -> (r: Vec<String>)
        ensures
            texts(r@) == tags_of(
                covered(entries_in(old(self)@.history, room_id@), cutoff_ts as int),
            ),
            final(self)@ == old(self)@.drained_up_to(room_id@, cutoff_ts as int),
            old(self)@.within_bounds() ==> final(self)@.within_bounds(),
    {
        let ghost table = self.notifications_by_room@;
        let mut tags: Vec<String> = Vec::new();
        let mut entries = match self.notifications_by_room.remove(room_id) {
            Some(entries) => entries,
            None => {
                proof {
                    assert(table.remove(room_id@) =~= table);
                    reveal(Seq::filter);
                    assert(texts(tags@) =~= tags_of(
                        covered(Seq::<NotifEntryView>::empty(), cutoff_ts as int),
                    ));
                }
                return tags;
            },
        };
        let ghost all = entry_views(entries@);
        let ghost go = |e: NotifEntryView| e.event_ts <= cutoff_ts as int;
        let ghost stay = |e: NotifEntryView| !(e.event_ts <= cutoff_ts as int);
        let ghost mut done: int = 0;
        let mut rest: VecDeque<NotifEntry> = VecDeque::new();
        proof {
            reveal(Seq::filter);
            assert(all.take(0) =~= Seq::<NotifEntryView>::empty());
            assert(all.skip(0) =~= all);
            assert(texts(tags@) =~= tags_of(all.take(0).filter(go)));
            assert(entry_views(rest@) =~= all.take(0).filter(stay));
        }
        while entries.len() > 0
            invariant
                0 <= done <= all.len(),
                entry_views(entries@) == all.skip(done),
                go == |e: NotifEntryView| e.event_ts <= cutoff_ts as int,
                stay == |e: NotifEntryView| !(e.event_ts <= cutoff_ts as int),
                texts(tags@) == tags_of(all.take(done).filter(go)),
                entry_views(rest@) == all.take(done).filter(stay),
            decreases entries.len(),
        {
            let ghost before = entries@;
            let ghost tags_before = tags@;
            let ghost rest_before = rest@;
            proof {
                assert(entry_views(before).len() == before.len());
                assert(all[done] == entry_views(before)[0]);
                assert(all.take(done + 1) =~= all.take(done).push(all[done]));
                lemma_filter_push(all.take(done), go, all[done]);
                lemma_filter_push(all.take(done), stay, all[done]);
            }
            match entries.pop_front() {
                Some(entry) => {
                    assert(entry@ == all[done]);
                    assert(entry_views(entries@) =~= all.skip(done + 1)) by {
                        assert(entry_views(entries@) =~= entry_views(before).skip(1));
                    }
                    if entry.event_ts <= cutoff_ts {
                        tags.push(entry.tag);
                        assert(texts(tags@) =~= texts(tags_before).push(entry@.tag));
                        assert(texts(tags@) =~= tags_of(all.take(done + 1).filter(go)));
                    } else {
                        rest.push_back(entry);
                        assert(entry_views(rest@) =~= entry_views(rest_before).push(entry@));
                    }
                },
                None => {},
            }
            proof {
                done = done + 1;
            }
        }
        proof {
            assert(entry_views(entries@).len() == 0);
            assert(all.take(done) =~= all);
            if old(self)@.within_bounds() {
                draining_keeps_bounds(old(self)@, room_id@, cutoff_ts as int);
            }
        }
        self.put_back(room_id, rest, Ghost(table));
        tags
    }

    /// Forgets the notifications that are expired `now`, in all rooms.
    pub fn cleanup_expired_notifs_at(&mut self, now: u128)
        ensures
            final(self)@ == old(self)@.cleaned_up(now as int),
            old(self)@.within_bounds() && now >= old(self)@.latest ==> final(self)@.within_bounds(),
    {
        let ghost whole = history_of(self.notifications_by_room@);
        let ghost cleaned = self@.cleaned_up(now as int).history;
        let rooms = self.notifications_by_room.keys();
        let ghost names = texts(rooms@);
        proof {
            assert forall|r: Seq<char>| #[trigger] whole.contains_key(r) <==> names.contains(r) by {
                assert(whole.contains_key(r) == self.notifications_by_room@.contains_key(r));
            }
            assert forall|j: int| 0 <= j < names.len() implies #[trigger] whole.contains_key(
                names[j],
            ) by {
                assert(names.contains(names[j]));
            }
        }
        let mut i: usize = 0;
        while i < rooms.len()
            invariant
                i <= rooms@.len(),
                names == texts(rooms@),
                names.no_duplicates(),
                whole == history_of(old(self).notifications_by_room@),
                cleaned == old(self)@.cleaned_up(now as int).history,
                forall|r: Seq<char>| #[trigger] whole.contains_key(r) <==> names.contains(r),
                self@ == (DaemonStateView {
                    history: history_of(self.notifications_by_room@),
                    ..old(self)@
                }),
                forall|j: int|
                    i <= j < names.len() ==> #[trigger] history_of(
                        self.notifications_by_room@,
                    ).contains_key(names[j]) && history_of(self.notifications_by_room@)[names[j]]
                        == whole[names[j]],
                forall|j: int|
                    0 <= j < i ==> (#[trigger] history_of(
                        self.notifications_by_room@,
                    ).contains_key(names[j]) <==> cleaned.contains_key(names[j])),
                forall|j: int|
                    0 <= j < i && cleaned.contains_key(#[trigger] names[j]) ==> history_of(
                        self.notifications_by_room@,
                    )[names[j]] == cleaned[names[j]],
                forall|r: Seq<char>| #[trigger]
                    history_of(self.notifications_by_room@).contains_key(r) ==> names.contains(r),
            decreases rooms.len() - i,
        {
            let ghost table = self.notifications_by_room@;
            let ghost name = names[i as int];
            assert(name == rooms@[i as int]@);
            match self.notifications_by_room.remove(rooms[i].as_str()) {
                Some(entries) => {
                    assert(history_of(table).contains_key(name));
                    assert(entry_views(entries@) == whole[name]);
                    let mut entries = entries;
                    prune(&mut entries, now);
                    self.put_back(rooms[i].as_str(), entries, Ghost(table));
                    proof {
                        let after = history_of(self.notifications_by_room@);
                        assert(after == with_entries(
                            history_of(table),
                            name,
                            pruned(whole[name], now as int),
                        ));
                        assert forall|j: int| i < j < names.len() implies #[trigger] after.contains_key(
                            names[j],
                        ) && after[names[j]] == whole[names[j]] by {
                            assert(names[j] != name);
                            assert(history_of(table).contains_key(names[j]));
                        }
                    }
                },
                None => {
                    assert(history_of(table).contains_key(name));
                },
            }
            i += 1;
        }
        proof {
            let after = history_of(self.notifications_by_room@);
            assert forall|r: Seq<char>|
                after.contains_key(r) == cleaned.contains_key(r) && (after.contains_key(r)
                    ==> after[r] == cleaned[r]) by {
                if after.contains_key(r) || cleaned.contains_key(r) {
                    assert(names.contains(r));
                    let j = choose|j: int| 0 <= j < names.len() && names[j] == r;
                    assert(after.contains_key(names[j]) <==> cleaned.contains_key(names[j]));
                }
            }
            assert(after =~= cleaned);
            if old(self)@.within_bounds() && now >= old(self)@.latest {
                cleanup_keeps_bounds(old(self)@, now as int);
            }
        }
        self.latest = now;
    }

    /// Forgets the expired notifications of all rooms.
    pub fn cleanup_expired_notifs(&mut self)
        ensures
            exists|now: int|
                now >= old(self)@.latest && final(self)@ == #[trigger] old(self)@.cleaned_up(now),
            old(self)@.within_bounds() ==> final(self)@.within_bounds(),
    {
        let now: u128 = self.now();
        self.cleanup_expired_notifs_at(now);
    }

    /// Whether a notification of the room that sounds `now` would follow the last one too soon.
    pub fn is_within_debounce_at(&self, room_id: &str, debounce_seconds: u64, now: u128) -> (r: bool)
        ensures
            r == self@.debounced(room_id@, debounce_seconds as int, now as int),
    {
        if debounce_seconds == 0 {
            return false;
        }
        match self.last_notif_per_room.get(room_id) {
            Some(prev) => {
                let passed: u128 = if now > *prev {
                    now - *prev
                } else {
                    0
                };
                passed < debounce_seconds as u128 * NANOS_PER_SEC
            },
            None => false,
        }
    }

    /// Whether a notification of the room that sounds right now would follow the last one too
    /// soon.
    pub fn is_within_debounce(&self, room_id: &str, debounce_seconds: u64) -> (r: bool)
        ensures
            exists|now: int|
                now >= self@.latest && r == #[trigger] self@.debounced(
                    room_id@,
                    debounce_seconds as int,
                    now,
                ),
            debounce_seconds == 0 || !self@.last_notif.contains_key(room_id@) ==> !r,
    {
        let now: u128 = self.now();
        self.is_within_debounce_at(room_id, debounce_seconds, now)
    }

    /// Notes that a notification of the room is posted `now`.
    pub fn mark_notification_at(&mut self, room_id: &str, now: u128)
        ensures
            final(self)@ == old(self)@.notified(room_id@, now as int),
            old(self)@.within_bounds() && now >= old(self)@.latest ==> final(self)@.within_bounds(),
    {
        let ghost table = self.last_notif_per_room@;
        self.last_notif_per_room.insert(room_id.to_owned(), now);
        self.latest = now;
        assert(moments(self.last_notif_per_room@) =~= moments(table).insert(room_id@, now as int));
    }

    /// Notes that a notification of the room is posted right now.
    pub fn mark_notification(&mut self, room_id: &str)
        ensures
            exists|now: int|
                now >= old(self)@.latest && final(self)@ == #[trigger] old(self)@.notified(
                    room_id@,
                    now,
                ),
            old(self)@.within_bounds() ==> final(self)@.within_bounds(),
    {
        let now: u128 = self.now();
        self.mark_notification_at(room_id, now);
    }

    /// Tells whether a notification of the room posted `now` sounds, and starts the room's
    /// debounce window anew. A `bypass` skips the window.
    pub fn apply_debounce_at(
        &mut self,
        room_id: &str,
        debounce_seconds: u64,
        bypass: bool,
        play_sound: bool,
        now: u128,
    ) -> (r: bool)
        ensures
            r == old(self)@.sound_after_debounce(
                room_id@,
                debounce_seconds as int,
                bypass,
                play_sound,
                now as int,
            ),
            final(self)@ == old(self)@.notified(room_id@, now as int),
            old(self)@.within_bounds() && now >= old(self)@.latest ==> final(self)@.within_bounds(),
    {
        let sound = if play_sound && !bypass && self.is_within_debounce_at(
            room_id,
            debounce_seconds,
            now,
        ) {
            false
        } else {
            play_sound
        };
        self.mark_notification_at(room_id, now);
        sound
    }

    /// Tells whether a notification of the room posted right now sounds, and starts the room's
    /// debounce window anew. A `bypass` skips the window.
    pub fn apply_debounce(
        &mut self,
        room_id: &str,
        debounce_seconds: u64,
        bypass: bool,
        play_sound: bool,
    ) -> (r: bool)
        ensures
            exists|now: int|
                now >= old(self)@.latest && final(self)@ == #[trigger] old(self)@.notified(
                    room_id@,
                    now,
                ) && r
                    == old(self)@.sound_after_debounce(
                    room_id@,
                    debounce_seconds as int,
                    bypass,
                    play_sound,
                    now,
                ),
            old(self)@.within_bounds() ==> final(self)@.within_bounds(),
    {
        let now: u128 = self.now();
        self.apply_debounce_at(room_id, debounce_seconds, bypass, play_sound, now)
    }

    /// What the clock of the daemon shows, in nanoseconds: no less than anything remembered.
    pub(crate) fn now(&self) -> (r: u128)
        ensures
            r >= self@.latest,
    {
        self.clock.now(self.latest)
    }
}

/// Pruning makes nothing longer.
pub proof fn lemma_pruned_len(entries: Seq<NotifEntryView>, now: int)
    ensures
        pruned(entries, now).len() <= entries.len(),
    decreases entries.len(),
{
    if entries.len() > 0 && expired(entries[0], now) {
        lemma_pruned_len(entries.skip(1), now);
    }
}

} // verus!
