//! Laws of single calls that dismiss notifications: which ones, said of the event and of what was
//! remembered before.
use vstd::prelude::*;

use crate::handlers::{
    dismissals, handle_call_hangup, handle_receipt, handle_redaction, receipt_tags, Receipt,
    Receipts, RedactionEvent,
};
use crate::laws::memory::{
    draining_reads_up_to, first_for_event, first_with_tag, kept, read_up_to, removal_takes_out,
    same_but_for_room, taken_out,
};
use crate::notification::{Notifier, Request};
use crate::state::{
    covered, lemma_first_where, tags_of, DaemonState, DaemonStateView, NotifEntryView,
};

verus! {

/// Whether the notifier was asked to dismiss the entries, one after the other, and nothing else.
pub open spec fn dismissed(
    requests: Seq<Request>,
    requests_after: Seq<Request>,
    entries: Seq<NotifEntryView>,
) -> bool {
    &&& requests_after.len() == requests.len() + entries.len()
    &&& forall|i: int| 0 <= i < requests.len() ==> #[trigger] requests_after[i] == requests[i]
    &&& forall|i: int|
        requests.len() <= i < requests_after.len() ==> (#[trigger] requests_after[i]) is Dismiss
            && requests_after[i]->Dismiss_tag == entries[i - requests.len()].tag
}

/// The dismissals of the tags of entries dismiss those entries.
proof fn dismissals_dismiss(requests: Seq<Request>, entries: Seq<NotifEntryView>, oks: Seq<bool>)
    ensures
        dismissed(requests, requests + dismissals(tags_of(entries), oks), entries),
{
}

/// Whether a receipt had its effect: with a time it dismisses and forgets the notifications of its
/// room for events up to that time, without one all of the room; no other is touched.
pub open spec fn receipt_took_effect(
    receipt: Receipt,
    room_id: Seq<char>,
    before: DaemonStateView,
    after: DaemonStateView,
    requests: Seq<Request>,
    requests_after: Seq<Request>,
) -> bool {
    match receipt.ts {
        Some(ts) => {
            &&& read_up_to(before, after, room_id, (ts / 1000) as int)
            &&& dismissed(
                requests,
                requests_after,
                kept(before, room_id).filter(|e: NotifEntryView| e.event_ts <= ts / 1000),
            )
        },
        None => {
            &&& !after.history.contains_key(room_id)
            &&& same_but_for_room(before, after, room_id)
            &&& dismissed(requests, requests_after, kept(before, room_id))
        },
    }
}

/// Once the first sync is over, a public receipt of the user has its effect, and where there is none
/// a private one has; without either, or before, nothing happens.
pub proof fn receipts_take_effect<N: Notifier>(
    ev: Receipts,
    room_id: &str,
    state: &mut DaemonState,
    notifier: &mut N,
)
    requires
        call_ensures(handle_receipt::<N>, (&ev, room_id, state, notifier), ()),
    ensures
        old(state)@.initial_sync_done && ev.read is Some ==> receipt_took_effect(
            ev.read->0,
            room_id@,
            old(state)@,
            final(state)@,
            old(notifier).requests(),
            final(notifier).requests(),
        ),
        old(state)@.initial_sync_done && ev.read is None && ev.read_private is Some
            ==> receipt_took_effect(
            ev.read_private->0,
            room_id@,
            old(state)@,
            final(state)@,
            old(notifier).requests(),
            final(notifier).requests(),
        ),
        !old(state)@.initial_sync_done || (ev.read is None && ev.read_private is None) ==> final(state)@ == old(state)@ && final(notifier).requests() == old(notifier).requests(),
{
    if old(state)@.initial_sync_done && (ev.read is Some || ev.read_private is Some) {
        let receipt = if ev.read is Some {
            ev.read->0
        } else {
            ev.read_private->0
        };
        let tags = receipt_tags(receipt, room_id@, old(state)@);
        let oks = choose|oks: Seq<bool>|
            oks.len() == tags.len() && final(notifier).requests() == old(notifier).requests()
                + #[trigger] dismissals(tags, oks);
        let entries = kept(old(state)@, room_id@);
        match receipt.ts {
            Some(ts) => {
                let cutoff = (ts / 1000) as int;
                draining_reads_up_to(old(state)@, room_id@, cutoff);
                let go = |e: NotifEntryView| e.event_ts <= ts / 1000;
                let covers = |e: NotifEntryView| e.event_ts <= cutoff;
                assert(go =~= covers);
                dismissals_dismiss(
                    old(notifier).requests(),
                    covered(entries, cutoff),
                    oks,
                );
            },
            None => dismissals_dismiss(old(notifier).requests(), entries, oks),
        }
    }
}

/// A private receipt without a public one does what the same receipt does as a public one.
pub proof fn private_receipts_count_like_public_ones<N: Notifier>(
    in_private: Receipts,
    in_public: Receipts,
    room_id: &str,
    state: &mut DaemonState,
    other: &mut DaemonState,
    notifier: &mut N,
    other_notifier: &mut N,
)
    requires
        call_ensures(handle_receipt::<N>, (&in_private, room_id, state, notifier), ()),
        call_ensures(handle_receipt::<N>, (&in_public, room_id, other, other_notifier), ()),
        in_private.read is None,
        in_private.read_private is Some,
        in_public.read is Some,
        in_public.read->0.ts == in_private.read_private->0.ts,
        old(state)@ == old(other)@,
        old(notifier).requests() == old(other_notifier).requests(),
    ensures
        final(state)@ == final(other)@,
        final(notifier).requests().len() == final(other_notifier).requests().len(),
        old(state)@.initial_sync_done ==> forall|i: int|
            old(notifier).requests().len() <= i < final(notifier).requests().len()
                ==> (#[trigger] final(notifier).requests()[i]) is Dismiss && final(other_notifier).requests()[i] is Dismiss && final(notifier).requests()[i]->Dismiss_tag == final(other_notifier).requests()[i]->Dismiss_tag,
{
    receipts_take_effect(in_private, room_id, state, notifier);
    receipts_take_effect(in_public, room_id, other, other_notifier);
    if old(state)@.initial_sync_done {
        let entries = kept(old(state)@, room_id@);
        match in_private.read_private->0.ts {
            Some(ts) => {
                let gone = entries.filter(|e: NotifEntryView| e.event_ts <= ts / 1000);
                assert(dismissed(
                    old(notifier).requests(),
                    final(notifier).requests(),
                    gone,
                ));
                assert(dismissed(
                    old(other_notifier).requests(),
                    final(other_notifier).requests(),
                    gone,
                ));
            },
            None => {},
        }
        assert forall|i: int|
            old(notifier).requests().len() <= i < final(notifier).requests().len() implies (
        #[trigger] final(notifier).requests()[i]) is Dismiss && final(other_notifier).requests()[i] is Dismiss && final(notifier).requests()[i]->Dismiss_tag == final(other_notifier).requests()[i]->Dismiss_tag by {
            assert(final(other_notifier).requests()[i] is Dismiss);
        }
    }
}

/// Whether the notifier was asked to dismiss one tag, and nothing else.
pub open spec fn dismissed_one(
    requests: Seq<Request>,
    requests_after: Seq<Request>,
    tag: Seq<char>,
) -> bool {
    &&& requests_after.len() == requests.len() + 1
    &&& requests_after.drop_last() == requests
    &&& requests_after.last() is Dismiss
    &&& requests_after.last()->Dismiss_tag == tag
}

/// One more request to dismiss a tag dismisses that tag.
proof fn one_dismissal(requests: Seq<Request>, tag: Seq<char>, ok: bool)
    ensures
        dismissed_one(requests, requests.push(Request::Dismiss { tag, ok }), tag),
{
    assert(requests.push(Request::Dismiss { tag, ok }).drop_last() =~= requests);
}

/// Once the first sync is over, a call that is hung up has its notification dismissed and forgotten,
/// where one is remembered; nothing else is touched.
pub proof fn hangups_dismiss_their_call<N: Notifier>(
    call_id: Option<&str>,
    room_id: &str,
    state: &mut DaemonState,
    notifier: &mut N,
    at: int,
)
    requires
        call_ensures(handle_call_hangup::<N>, (call_id, room_id, state, notifier), ()),
        call_id matches Some(id) ==> first_with_tag(
            kept(old(state)@, room_id@),
            "call:"@ + id@,
            at,
        ),
    ensures
        old(state)@.initial_sync_done && call_id is Some && at < kept(old(state)@, room_id@).len()
            ==> taken_out(old(state)@, final(state)@, room_id@, at) && dismissed_one(
            old(notifier).requests(),
            final(notifier).requests(),
            "call:"@ + call_id->0@,
        ),
        !old(state)@.initial_sync_done || call_id is None || at >= kept(
            old(state)@,
            room_id@,
        ).len() ==> final(state)@ == old(state)@ && final(notifier).requests() == old(notifier).requests(),
{
    let entries = kept(old(state)@, room_id@);
    if let Some(id) = call_id {
        let tag = "call:"@ + id@;
        lemma_first_where(entries, |e: NotifEntryView| e.tag == tag, at);
        assert(old(state)@.position_of_tag(room_id@, tag) == at);
        if old(state)@.initial_sync_done && at < entries.len() {
            removal_takes_out(old(state)@, room_id@, at);
            let ok = choose|ok: bool|
                final(notifier).requests() == #[trigger] old(notifier).requests().push(
                    Request::Dismiss { tag, ok },
                );
            one_dismissal(old(notifier).requests(), tag, ok);
        }
    }
}

/// The event that a redaction takes back, as its content names it or else as it does itself.
pub open spec fn takes_back(ev: RedactionEvent, event_id: Seq<char>) -> bool {
    ||| ev.content_redacts is Some && ev.content_redacts->0@ == event_id
    ||| ev.content_redacts is None && ev.redacts is Some && ev.redacts->0@ == event_id
}

/// Once the first sync is over, an event that is redacted has its notification dismissed and
/// forgotten, where one is remembered for it; nothing else is touched.
pub proof fn redactions_dismiss_their_event<N: Notifier>(
    ev: Option<RedactionEvent>,
    room_id: &str,
    state: &mut DaemonState,
    notifier: &mut N,
    event_id: Seq<char>,
    at: int,
)
    requires
        call_ensures(handle_redaction::<N>, (&ev, room_id, state, notifier), ()),
        ev matches Some(e) ==> takes_back(e, event_id) || (e.content_redacts is None
            && e.redacts is None),
        first_for_event(kept(old(state)@, room_id@), event_id, at),
    ensures
        old(state)@.initial_sync_done && ev is Some && takes_back(ev->0, event_id) && at < kept(
            old(state)@,
            room_id@,
        ).len() ==> taken_out(old(state)@, final(state)@, room_id@, at) && dismissed_one(
            old(notifier).requests(),
            final(notifier).requests(),
            kept(old(state)@, room_id@)[at].tag,
        ),
        !old(state)@.initial_sync_done || ev is None || !takes_back(ev->0, event_id) || at >= kept(
            old(state)@,
            room_id@,
        ).len() ==> final(state)@ == old(state)@ && final(notifier).requests() == old(notifier).requests(),
{
    let entries = kept(old(state)@, room_id@);
    lemma_first_where(entries, |e: NotifEntryView| e.event_id == event_id, at);
    assert(old(state)@.position_of_event(room_id@, event_id) == at);
    if old(state)@.initial_sync_done && ev is Some && takes_back(ev->0, event_id) && at
        < entries.len() {
        assert(ev->0.redacted() == Some(event_id));
        removal_takes_out(old(state)@, room_id@, at);
        let tag = entries[at].tag;
        let ok = choose|ok: bool|
            final(notifier).requests() == #[trigger] old(notifier).requests().push(
                Request::Dismiss { tag, ok },
            );
        one_dismissal(old(notifier).requests(), tag, ok);
    }
}

/// The receipt that counts is the public one, or else the private one.
pub proof fn chosen_receipts(ev: Receipts)
    ensures
        ev.read is Some ==> ev.chosen() == ev.read,
        ev.read is None ==> ev.chosen() == ev.read_private,
{
}

} // verus!
