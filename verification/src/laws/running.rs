//! Laws of single calls that keep the daemon running and show its notifications: what comes back,
//! said of the arguments as they were given.
use vstd::prelude::*;

use crate::config::{Config, Platform};
use crate::laws::evaluation::{named, named_is_among_the_texts};
use crate::notification::{
    create_notifier, macos_sound_file, test_notifications, titlecase, Backend, LinuxNotifier,
    Notification, NotifyError, Popup,
};
use crate::runtime::{
    asks_for_reload, count_rooms, count_set, default_log_filter, keeps_running, lacks_keys,
    on_sync_change, reload_config, sync_action, unknown_room_warning,
    validate_overrides_against_joined, RoomCounts, SyncAction, Wake, SHUTDOWN_FLUSH_DELAY_MILLIS,
    SYNC_RETRY_DELAY_SECS,
};
use crate::state::{
    DaemonState, DaemonStateView, NANOS_PER_SEC, NOTIF_CLEANUP_INTERVAL_SECS, NOTIF_HISTORY_CAP,
    NOTIF_HISTORY_TTL_SECS, SEEN_EVENTS_CAP,
};
use crate::table::StringTable;
use crate::text::{lowercase, occurs, texts};
use crate::verify::{SyncReport, BACKUP_POLLS, SYNC_DEADLINE_SECS, VERIFICATION_ATTEMPTS};

verus! {

/// A failed sync is started again, whether or not the first one is over, unless its error says that
/// the session is no longer valid; a sync that has ended stays ended; and any other report than that
/// of a running sync is waited out.
pub proof fn failed_syncs_are_restarted(report: Option<SyncReport>, initial_sync_done: bool)
    ensures
        report matches Some(SyncReport::Error(e)) ==> {
            &&& occurs(e@, "M_UNKNOWN_TOKEN"@) ==> sync_action(report, initial_sync_done)
                == SyncAction::SessionInvalid
            &&& !occurs(e@, "M_UNKNOWN_TOKEN"@) ==> sync_action(report, initial_sync_done)
                == SyncAction::Restart
        },
        report is None || report == Some(SyncReport::Terminated) ==> sync_action(
            report,
            initial_sync_done,
        ) == SyncAction::Stop,
        report == Some(SyncReport::Other) || report == Some(SyncReport::TimedOut) ==> sync_action(
            report,
            initial_sync_done,
        ) == SyncAction::Wait,
{
}

/// A running sync ends the first one, which is then over for good, or has merely resumed. A failed
/// one is started again unless its session is invalid. No other report changes what is remembered.
pub proof fn reports_of_the_sync_are_acted_on(
    report: Option<SyncReport>,
    state: &mut DaemonState,
    r: SyncAction,
)
    requires
        call_ensures(on_sync_change, (&report, state), r),
    ensures
        report == Some(SyncReport::Running) && !old(state)@.initial_sync_done ==> r
            == SyncAction::Begin && final(state)@ == (DaemonStateView {
            initial_sync_done: true,
            ..old(state)@
        }),
        report == Some(SyncReport::Running) && old(state)@.initial_sync_done ==> r
            == SyncAction::Resumed,
        report matches Some(SyncReport::Error(e)) ==> {
            &&& occurs(e@, "M_UNKNOWN_TOKEN"@) ==> r == SyncAction::SessionInvalid
            &&& !occurs(e@, "M_UNKNOWN_TOKEN"@) ==> r == SyncAction::Restart
        },
        report == Some(SyncReport::Terminated) || report is None ==> r == SyncAction::Stop,
        report == Some(SyncReport::Other) || report == Some(SyncReport::TimedOut) ==> r
            == SyncAction::Wait,
        report != Some(SyncReport::Running) || old(state)@.initial_sync_done ==> final(state)@
            == old(state)@,
{
}

/// Whatever happened before, the action for an error depends on its text alone.
pub proof fn errors_are_judged_by_their_text(
    a: String,
    b: String,
    state: &mut DaemonState,
    other: &mut DaemonState,
    of_a: SyncAction,
    of_b: SyncAction,
)
    requires
        call_ensures(on_sync_change, (&Some(SyncReport::Error(a)), state), of_a),
        call_ensures(on_sync_change, (&Some(SyncReport::Error(b)), other), of_b),
        a@ == b@,
    ensures
        of_a == of_b,
        of_a == SyncAction::Restart || of_a == SyncAction::SessionInvalid,
{
}

/// The daemon goes on where its configuration is to be read again, and ends on any other signal.
pub proof fn reloads_keep_it_running(wake: Wake, r: bool)
    requires
        call_ensures(keeps_running, (wake,), r),
    ensures
        wake == Wake::Hangup || wake == Wake::ConfigChanged ==> r,
        wake == Wake::Signal || wake == Wake::Exhausted ==> !r,
{
}

/// A configuration that could be read takes the place of the current one; otherwise that stays.
pub proof fn readable_configurations_are_taken(
    current: Config,
    loaded: Option<Config>,
    r: (Config, bool),
)
    requires
        call_ensures(reload_config, (current, loaded), r),
    ensures
        loaded matches Some(config) ==> r.0 == config && r.1,
        loaded is None ==> r.0 == current && !r.1,
{
}

/// A change asks for a reload where something was modified or created.
pub proof fn changes_ask_for_reload(is_modify: bool, is_create: bool, r: bool)
    requires
        call_ensures(asks_for_reload, (is_modify, is_create), r),
    ensures
        is_modify ==> r,
        is_create ==> r,
        !is_modify && !is_create ==> !r,
{
}

/// The overrides to warn of are those of rooms that are not joined, each once.
pub proof fn unjoined_overrides_are_found(
    config: Config,
    joined: Vec<String>,
    keys: Vec<String>,
    room: Seq<char>,
    r: Vec<String>,
)
    requires
        call_ensures(validate_overrides_against_joined, (&config, &joined), r),
        call_ensures(StringTable::keys, (&config.notifications.rooms.overrides,), keys),
    ensures
        named(r@, room) == (config.notifications.rooms.overrides@.contains_key(room) && !named(
            joined@,
            room,
        )),
        forall|i: int, j: int|
            0 <= i < j < r@.len() ==> (#[trigger] r@[i])@ != (#[trigger] r@[j])@,
{
    named_is_among_the_texts(r@, room);
    named_is_among_the_texts(joined@, room);
    let overrides = config.notifications.rooms.overrides;
    assert(config@.notifications.rooms.overrides.contains_key(room) == overrides@.contains_key(room));
    let wanted = |k: Seq<char>| !texts(joined@).contains(k);
    let names = overrides.key_order();
    assert(texts(r@) == names.filter(wanted));
    filtered_keys_are_distinct(names, wanted);
    assert forall|i: int, j: int| 0 <= i < j < r@.len() implies (#[trigger] r@[i])@ != (
    #[trigger] r@[j])@ by {
        assert(texts(r@)[i] == r@[i]@);
        assert(texts(r@)[j] == r@[j]@);
    }
}

/// Of keys that stand but once, any choice does, too.
proof fn filtered_keys_are_distinct(keys: Seq<Seq<char>>, wanted: spec_fn(Seq<char>) -> bool)
    requires
        keys.no_duplicates(),
    ensures
        keys.filter(wanted).no_duplicates(),
    decreases keys.len(),
{
    reveal(Seq::filter);
    if keys.len() > 0 {
        let before = keys.drop_last();
        assert(before.no_duplicates()) by {
            assert forall|i: int, j: int|
                0 <= i < before.len() && 0 <= j < before.len() && i != j implies before[i]
                != before[j] by {
                assert(keys[i] != keys[j]);
            }
        }
        filtered_keys_are_distinct(before, wanted);
        assert forall|i: int| 0 <= i < before.filter(wanted).len() implies #[trigger] before.filter(
            wanted,
        )[i] != keys.last() by {
            before.lemma_filter_contains_rev(wanted, before.filter(wanted)[i]);
            let j = choose|j: int| 0 <= j < before.len() && before[j] == before.filter(wanted)[i];
            assert(keys[j] != keys[keys.len() - 1]);
        }
    }
}

/// Counting goes by what holds of each room.
proof fn set_flags_are_counted(flags: Seq<bool>)
    ensures
        count_set(flags) == flags.filter(|b: bool| b).len(),
    decreases flags.len(),
{
    reveal(Seq::filter);
    if flags.len() > 0 {
        set_flags_are_counted(flags.drop_last());
    }
}

/// Every joined room counts once: as an encrypted or as an unencrypted one.
pub proof fn rooms_count_once(encrypted: Vec<bool>, r: RoomCounts)
    requires
        call_ensures(count_rooms, (&encrypted,), r),
    ensures
        r.rooms == encrypted@.len(),
        r.encrypted == encrypted@.filter(|b: bool| b).len(),
        r.unencrypted == r.rooms - r.encrypted,
{
    set_flags_are_counted(encrypted@);
}

/// Keys are lacking where there is an encrypted room and no backup.
pub proof fn keys_are_lacking_without_backup(counts: RoomCounts, backup_enabled: bool, r: bool)
    requires
        call_ensures(lacks_keys, (&counts, backup_enabled), r),
    ensures
        backup_enabled ==> !r,
        counts.encrypted == 0 ==> !r,
        counts.encrypted > 0 && !backup_enabled ==> r,
{
}

/// The log is off unless it is asked for, and a warning names the room that it is about.
pub proof fn what_is_logged(verbose: bool, filter: &'static str, room_id: &str, warning: String)
    requires
        call_ensures(default_log_filter, (verbose,), filter),
        call_ensures(unknown_room_warning, (room_id,), warning),
    ensures
        verbose ==> filter@ == "info"@,
        !verbose ==> filter@ == "off"@,
        warning@ == "room override `"@ + room_id@
            + "` is not a joined room. did you copy the wrong id from `psst list-rooms`?"@,
{
}

/// There is a backend for Linux and one for macOS, and none for any other platform.
pub proof fn backends_go_by_platform(platform: Platform, r: Result<Backend, NotifyError>)
    requires
        call_ensures(create_notifier, (platform,), r),
    ensures
        platform == Platform::Linux ==> r is Ok && r->Ok_0 == Backend::Linux,
        platform == Platform::Macos ==> r is Ok && r->Ok_0 == Backend::Macos,
        platform == Platform::Other ==> r is Err && r->Err_0.message@
            == "notifications not supported on this platform"@,
{
}

/// A popup shows what its notification says, and takes the place of the one that is shown under its
/// tag.
pub proof fn popups_show_their_notification(
    notifier: LinuxNotifier,
    notification: Notification,
    p: Popup,
)
    requires
        call_ensures(LinuxNotifier::popup, (&notifier, &notification), p),
    ensures
        p.app_name@ == "psst"@,
        p.summary@ == notification.title@,
        p.body@ == notification.body@,
        (p.sound_name is Some) == (notification.sound is Some),
        notification.sound matches Some(s) ==> p.sound_name->0@ == s@,
        (p.id is Some) == notifier@.contains_key(notification.tag@),
        p.id matches Some(id) ==> id == notifier@[notification.tag@],
{
}

/// A popup that is shown is the one to replace and to close, until it is closed; no other is touched.
pub proof fn popups_are_found_by_tag(
    fresh: LinuxNotifier,
    showing: &mut LinuxNotifier,
    closing: &mut LinuxNotifier,
    tag: &str,
    other: Seq<char>,
    id: u32,
    closed: Option<u32>,
)
    requires
        call_ensures(LinuxNotifier::new, (), fresh),
        call_ensures(LinuxNotifier::shown, (showing, tag, id), ()),
        call_ensures(LinuxNotifier::close, (closing, tag), closed),
    ensures
        !fresh@.contains_key(other),
        final(showing)@.contains_key(tag@) && final(showing)@[tag@] == id,
        other != tag@ ==> final(showing)@.contains_key(other) == old(showing)@.contains_key(other)
            && final(showing)@[other] == old(showing)@[other],
        (closed is Some) == old(closing)@.contains_key(tag@),
        closed matches Some(c) ==> c == old(closing)@[tag@],
        !final(closing)@.contains_key(tag@),
        other != tag@ ==> final(closing)@.contains_key(other) == old(closing)@.contains_key(other)
            && final(closing)@[other] == old(closing)@[other],
{
}

/// A sound file is called like its sound, with the first letter in upper case and the rest in lower
/// case.
pub proof fn sound_files_are_titled(name: &str, titled: String, file: String)
    requires
        call_ensures(titlecase, (name,), titled),
        call_ensures(macos_sound_file, (name,), file),
    ensures
        file@ == titled@ + ".aiff"@,
        name@.len() == 0 ==> titled@.len() == 0,
        name@.len() > 0 ==> titled@.len() == 1 + lowercase(name@.skip(1)).len() && titled@.skip(1)
            == lowercase(name@.skip(1)),
        name@.len() > 0 && !('a' <= name@[0] <= 'z') ==> titled@[0] == name@[0],
        name@.len() > 0 && 'a' <= name@[0] <= 'z' ==> titled@[0] as int == name@[0] as int - 32,
{
    if name@.len() > 0 {
        assert(titled@.skip(1) =~= lowercase(name@.skip(1)));
        if 'a' <= name@[0] <= 'z' {
            let c = name@[0];
            let n = c as u8;
            assert(n == c as int);
            let up = (n - 32) as u8;
            assert(65 <= up <= 90);
            assert((up as char) as int == up as int);
        }
    }
}

/// The two test notifications differ in sound: the first is silent, the second has the platform's.
pub proof fn test_notifications_are_silent_and_noisy(
    platform: Platform,
    r: (Notification, Notification),
)
    requires
        call_ensures(test_notifications, (platform,), r),
    ensures
        r.0.sound is None,
        r.1.sound is Some,
        platform == Platform::Macos ==> r.1.sound->0@ == "Blow"@,
        platform != Platform::Macos ==> r.1.sound->0@ == "message-new-instant"@,
        r.0.tag@ == "psst-test-silent"@,
        r.1.tag@ == "psst-test-noisy"@,
        r.0.title@ == "psst"@ && r.1.title@ == "psst"@,
        r.0.body@ == "silent test notification"@,
        r.1.body@ == "noisy test notification"@,
        r.0.subtitle is None && r.1.subtitle is None,
        r.0.thread_id@ == "psst-test"@ && r.1.thread_id@ == "psst-test"@,
        !r.0.replace && !r.1.replace,
{
}

/// What is put into a table is what it gives, until it is taken out; other keys keep their values,
/// and new keys come last.
pub proof fn tables_give_what_was_put_in<V>(
    putting: &mut StringTable<V>,
    k: String,
    v: V,
    taking: &mut StringTable<V>,
    key: &str,
    taken: Option<V>,
    reading: StringTable<V>,
    got: Option<&V>,
    has: bool,
    other: Seq<char>,
)
    requires
        call_ensures(StringTable::<V>::insert, (putting, k, v), ()),
        call_ensures(StringTable::<V>::remove, (taking, key), taken),
        call_ensures(StringTable::<V>::get, (&reading, key), got),
        call_ensures(StringTable::<V>::contains_key, (&reading, key), has),
    ensures
        final(putting)@.contains_key(k@) && final(putting)@[k@] == v,
        other != k@ ==> final(putting)@.contains_key(other) == old(putting)@.contains_key(other)
            && final(putting)@[other] == old(putting)@[other],
        !old(putting)@.contains_key(k@) ==> final(putting).key_order() == old(
            putting,
        ).key_order().push(k@),
        old(putting)@.contains_key(k@) ==> final(putting).key_order() == old(putting).key_order(),
        (taken is Some) == old(taking)@.contains_key(key@),
        taken matches Some(t) ==> t == old(taking)@[key@],
        !final(taking)@.contains_key(key@),
        other != key@ ==> final(taking)@.contains_key(other) == old(taking)@.contains_key(other)
            && final(taking)@[other] == old(taking)@[other],
        (got is Some) == reading@.contains_key(key@),
        got matches Some(g) ==> *g == reading@[key@],
        has == reading@.contains_key(key@),
{
}

/// The keys of a table are those it holds, each once, in the order in which they came; a copy has the
/// same.
pub proof fn tables_list_their_keys<V: Clone>(
    fresh: StringTable<V>,
    t: StringTable<V>,
    keys: Vec<String>,
    empty: bool,
    copy: StringTable<V>,
    key: Seq<char>,
)
    requires
        call_ensures(StringTable::<V>::new, (), fresh),
        call_ensures(StringTable::<V>::keys, (&t,), keys),
        call_ensures(StringTable::<V>::is_empty, (&t,), empty),
        call_ensures(StringTable::<V>::clone, (&t,), copy),
    ensures
        !fresh@.contains_key(key),
        fresh.key_order().len() == 0,
        texts(keys@) == t.key_order(),
        named(keys@, key) == t@.contains_key(key),
        empty == (keys@.len() == 0),
        copy@.contains_key(key) == t@.contains_key(key),
        copy.key_order() == t.key_order(),
{
    named_is_among_the_texts(keys@, key);
    assert(texts(keys@).len() == keys@.len());
    assert(copy@.dom().contains(key) == t@.dom().contains(key));
}

/// The limits and delays are the documented ones: a hundred notifications per room for seven days,
/// cleaned up hourly, ten thousand seen events, two seconds before a sync is started again, thirty
/// for the first sync, three requests for a verification and ten looks for the backup key.
pub proof fn limits_and_delays()
    ensures
        NOTIF_HISTORY_CAP == 100,
        NOTIF_HISTORY_TTL_SECS == 7 * 24 * 60 * 60,
        NOTIF_CLEANUP_INTERVAL_SECS == 60 * 60,
        SEEN_EVENTS_CAP == 10_000,
        NANOS_PER_SEC == 1_000_000_000,
        SYNC_RETRY_DELAY_SECS == 2,
        SHUTDOWN_FLUSH_DELAY_MILLIS == 100,
        SYNC_DEADLINE_SECS == 30,
        VERIFICATION_ATTEMPTS == 3,
        BACKUP_POLLS == 10,
{
}

} // verus!
