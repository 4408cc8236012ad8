//! The daemon while it runs: the state of its sync, its signals, and its configuration.
use vstd::prelude::*;
use vstd::string::*;

use crate::config::Config;
use crate::state::{DaemonState, DaemonStateView};
use crate::text::{contains_text, join, list_has, occurs, texts};
use crate::verify::SyncReport;

verus! {

/// How long the daemon waits before it restarts a failed sync, in seconds.
pub const SYNC_RETRY_DELAY_SECS: u64 = 2;

/// How long the client gets to flush what is pending before the program ends, in milliseconds.
pub const SHUTDOWN_FLUSH_DELAY_MILLIS: u64 = 100;

/// What to do about a report of the running sync.
#[derive(Debug, Clone, Copy, PartialEq, Eq, Structural)]
pub enum SyncAction {
    /// The first sync is over; from now on events are announced.
    Begin,
    /// The sync runs again.
    Resumed,
    /// Wait a little and start the sync again.
    Restart,
    /// Stop watching: the session is no longer valid.
    SessionInvalid,
    /// Stop watching: the sync has ended.
    Stop,
    /// Wait for the next report.
    Wait,
}

/// What to do about a report, which may be that there are no more.
pub open spec fn sync_action(report: Option<SyncReport>, initial_sync_done: bool) -> SyncAction {
    match report {
        Some(SyncReport::Running) => if initial_sync_done {
            SyncAction::Resumed
        } else {
            SyncAction::Begin
        },
        Some(SyncReport::Error(e)) => if occurs(e@, "M_UNKNOWN_TOKEN"@) {
            SyncAction::SessionInvalid
        } else {
            SyncAction::Restart
        },
        Some(SyncReport::Terminated) => SyncAction::Stop,
        Some(_) => SyncAction::Wait,
        None => SyncAction::Stop,
    }
}

/// Tells what to do about a report of the running sync, or the end of its reports, and notes
/// where the first sync is over.
pub fn on_sync_change(report: &Option<SyncReport>, state: &mut DaemonState) -> (r: SyncAction)
    ensures
        r == sync_action(*report, old(state)@.initial_sync_done),
        final(state)@ == if r == SyncAction::Begin {
            (DaemonStateView { initial_sync_done: true, ..old(state)@ })
        } else {
            old(state)@
        },
        old(state)@.within_bounds() ==> final(state)@.within_bounds(),
{
    match report {
        Some(SyncReport::Running) => if state.is_initial_sync_done() {
            SyncAction::Resumed
        } else {
            state.set_initial_sync_done();
            SyncAction::Begin
        },
        Some(SyncReport::Error(e)) => if contains_text(e.as_str(), "M_UNKNOWN_TOKEN") {
            SyncAction::SessionInvalid
        } else {
            SyncAction::Restart
        },
        Some(SyncReport::Terminated) => SyncAction::Stop,
        Some(_) => SyncAction::Wait,
        None => SyncAction::Stop,
    }
}

/// What wakes the daemon.
#[derive(Debug, Clone, Copy, PartialEq, Eq, Structural)]
pub enum Wake {
    /// The signal that asks for the configuration to be read again.
    Hangup,
    /// Any other signal.
    Signal,
    /// The directory of the configuration changed.
    ConfigChanged,
    /// Nothing will wake it any more.
    Exhausted,
}

/// Tells whether the daemon goes on after it was woken; it then reads its configuration again.
pub fn keeps_running(wake: Wake) -> (r: bool)
    ensures
        r == (wake == Wake::Hangup || wake == Wake::ConfigChanged),
{
    match wake {
        Wake::Hangup => true,
        Wake::ConfigChanged => true,
        Wake::Signal => false,
        Wake::Exhausted => false,
    }
}

/// Takes a configuration that was read again. Where it could not be read, the previous one stays
/// in force.
pub fn reload_config(current: Config, loaded: Option<Config>) -> (r: (Config, bool))
    ensures
        r.1 == (loaded is Some),
        r.0 == match loaded {
            Some(config) => config,
            None => current,
        },
{
    match loaded {
        Some(config) => (config, true),
        None => (current, false),
    }
}

/// Tells whether a change in the directory of the configuration asks for it to be read again.
pub fn asks_for_reload(is_modify: bool, is_create: bool) -> (r: bool)
    ensures
        r == (is_modify || is_create),
{
    is_modify || is_create
}

/// The rooms, in their order, that are not joined.
pub open spec fn not_joined(rooms: Seq<Seq<char>>, joined: Seq<Seq<char>>) -> Seq<Seq<char>> {
    rooms.filter(|r: Seq<char>| !joined.contains(r))
}

/// The rooms with overrides that the user has not joined, in the order of the configuration.
pub fn validate_overrides_against_joined(config: &Config, joined: &Vec<String>) -> (r: Vec<String>)
    ensures
        texts(r@) == not_joined(
            config.notifications.rooms.overrides.key_order(),
            texts(joined@),
        ),
        forall|room: Seq<char>|
            texts(r@).contains(room) <==> config@.notifications.rooms.overrides.contains_key(room)
                && !texts(joined@).contains(room),
{
    let rooms = config.notifications.rooms.overrides.keys();
    let ghost names = texts(rooms@);
    let ghost unknown = |r: Seq<char>| !texts(joined@).contains(r);
    let mut out: Vec<String> = Vec::new();
    let mut i: usize = 0;
    proof {
        reveal(Seq::filter);
        assert(texts(out@) =~= names.take(0).filter(unknown));
    }
    while i < rooms.len()
        invariant
            i <= rooms@.len(),
            names == texts(rooms@),
            unknown == |r: Seq<char>| !texts(joined@).contains(r),
            texts(out@) == names.take(i as int).filter(unknown),
        decreases rooms.len() - i,
    {
        let ghost before = out@;
        proof {
            assert(names.take(i + 1).drop_last() =~= names.take(i as int));
            reveal(Seq::filter);
        }
        if !list_has(joined, rooms[i].as_str()) {
            out.push(rooms[i].clone());
            assert(texts(out@) =~= texts(before).push(names[i as int]));
        }
        i += 1;
    }
    proof {
        assert(names.take(i as int) =~= names);
        broadcast use vstd::seq_lib::group_filter_ensures;

        assert forall|room: Seq<char>|
            texts(out@).contains(room) <==> config@.notifications.rooms.overrides.contains_key(room)
                && !texts(joined@).contains(room) by {
            if names.contains(room) && unknown(room) {
                let k = choose|k: int| 0 <= k < names.len() && names[k] == room;
                assert(names.filter(unknown).contains(names[k]));
            }
            if texts(out@).contains(room) {
                let k = choose|k: int| 0 <= k < texts(out@).len() && texts(out@)[k] == room;
                assert(unknown(names.filter(unknown)[k]));
                names.lemma_filter_contains_rev(unknown, room);
            }
        }
    }
    out
}

/// The warning about an override for a room that the user has not joined.
pub fn unknown_room_warning(room_id: &str) -> (r: String)
    ensures
        r@ == "room override `"@ + room_id@
            + "` is not a joined room. did you copy the wrong id from `psst list-rooms`?"@,
{
    join("room override `", room_id).concat(
        "` is not a joined room. did you copy the wrong id from `psst list-rooms`?",
    )
}

/// How many of the flags are set.
pub open spec fn count_set(flags: Seq<bool>) -> nat
    decreases flags.len(),
{
    if flags.len() == 0 {
        0
    } else {
        count_set(flags.drop_last()) + if flags.last() {
            1nat
        } else {
            0nat
        }
    }
}

/// The joined rooms by number.
#[derive(Debug, Clone, Copy, PartialEq, Eq, Structural)]
pub struct RoomCounts {
    pub rooms: usize,
    pub encrypted: usize,
    pub unencrypted: usize,
}

/// Counts the joined rooms, of each of which it is given whether it is encrypted.
pub fn count_rooms(encrypted: &Vec<bool>) -> (r: RoomCounts)
    ensures
        r.rooms == encrypted@.len(),
        r.encrypted == count_set(encrypted@),
        r.encrypted + r.unencrypted == r.rooms,
{
    let mut n: usize = 0;
    let mut i: usize = 0;
    assert(encrypted@.take(0).len() == 0);
    while i < encrypted.len()
        invariant
            i <= encrypted@.len(),
            n <= i,
            n == count_set(encrypted@.take(i as int)),
        decreases encrypted.len() - i,
    {
        assert(encrypted@.take(i + 1).drop_last() =~= encrypted@.take(i as int));
        if encrypted[i] {
            n += 1;
        }
        i += 1;
    }
    assert(encrypted@.take(i as int) =~= encrypted@);
    RoomCounts { rooms: encrypted.len(), encrypted: n, unencrypted: encrypted.len() - n }
}

/// Tells whether the user is to be warned that encrypted rooms cannot be read.
pub fn lacks_keys(counts: &RoomCounts, backup_enabled: bool) -> (r: bool)
    ensures
        r == (counts.encrypted > 0 && !backup_enabled),
{
    counts.encrypted > 0 && !backup_enabled
}

/// The default verbosity of the log.
pub fn default_log_filter(verbose: bool) -> (r: &'static str)
    ensures
        r@ == if verbose {
            "info"@
        } else {
            "off"@
        },
{
    if verbose {
        "info"
    } else {
        "off"
    }
}

} // verus!
