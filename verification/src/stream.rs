//! The portable event-stream engine: a queue of kernel input records stands
//! for the stream between the injection engine and the capture hooks. The
//! injection side appends encoded records; the capture side decodes them in
//! order, consults the resolver for key-press names, and hands the events
//! out exactly once and in stream order. The grab side decides per record
//! whether it passes, is replaced, or is suppressed. The OS-facing loops
//! around this engine perform the device reads and writes and deliver each
//! drained event to the registered callback.

use vstd::prelude::*;

use crate::linux::keyboard::spec_add_name;
use crate::linux::keyboard::spec_add_state;
use crate::linux::keyboard::Keyboard;
use crate::linux::keyboard::State;
use crate::linux::wayland::grab::evdev_event_to_rdev_event;
use crate::linux::wayland::grab::rdev_event_to_evdev_event;
use crate::linux::wayland::grab::spec_evdev_event_to_rdev_event;
use crate::linux::wayland::grab::spec_rdev_event_to_evdev_event;
use crate::linux::wayland::grab::InputEventRecord;
use crate::rdev::Event;
use crate::rdev::EventType;
use crate::rdev::Key;
use crate::rdev::SimulateError;

verus! {

/// Law: an injection with no encoding fails with the one injection error
/// and leaves the stream untouched; an encodable event is appended as
/// exactly one record. Keys without a platform mapping are thus refused,
/// producing no observable event, and a failed call corrupts nothing.
pub fn simulate_into(
    queue: &mut Vec<InputEventRecord>,
    event_type: &EventType,
    sec: i64,
    usec: i64,
) -> (r: Result<(), SimulateError>)
    ensures
        spec_rdev_event_to_evdev_event(*event_type, sec, usec) matches Some(rec) ==> r is Ok
            && final(queue)@ == old(queue)@.push(rec),
        spec_rdev_event_to_evdev_event(*event_type, sec, usec) is None ==> r is Err
            && final(queue)@ == old(queue)@,
{
    match rdev_event_to_evdev_event(event_type, sec, usec) {
        Some(rec) => {
            queue.push(rec);
            Ok(())
        },
        None => Err(SimulateError),
    }
}

/// The canonical events a record stream decodes to, in stream order;
/// records that decode to nothing are dropped and everything else is kept
/// exactly once.
pub open spec fn spec_decoded_events(records: Seq<InputEventRecord>) -> Seq<EventType>
    decreases records.len(),
{
    if records.len() == 0 {
        Seq::empty()
    } else {
        let rest = spec_decoded_events(records.drop_last());
        match spec_evdev_event_to_rdev_event(records.last()) {
            Some(e) => rest.push(e),
            None => rest,
        }
    }
}

/// Law: decoding reports events exactly once each and in stream order.
/// Where every record of a stream decodes, the decoded sequence has the
/// same length and the event of position `i` came from the record of
/// position `i`.
pub proof fn lemma_decode_preserves_order(records: Seq<InputEventRecord>)
    requires
        forall|i: int|
            0 <= i < records.len() ==> spec_evdev_event_to_rdev_event(#[trigger] records[i])
                is Some,
    ensures
        spec_decoded_events(records).len() == records.len(),
        forall|i: int|
            0 <= i < records.len() ==> spec_decoded_events(records)[i]
                == spec_evdev_event_to_rdev_event(#[trigger] records[i])->0,
    decreases records.len(),
{
    if records.len() > 0 {
        let dl = records.drop_last();
        assert forall|i: int|
            0 <= i < dl.len() implies spec_evdev_event_to_rdev_event(#[trigger] dl[i]) is Some by {
            assert(dl[i] == records[i]);
        }
        lemma_decode_preserves_order(dl);
        assert forall|i: int|
            0 <= i < records.len() implies spec_decoded_events(records)[i]
            == spec_evdev_event_to_rdev_event(#[trigger] records[i])->0 by {
            if i < records.len() - 1 {
                assert(dl[i] == records[i]);
            } else {
                assert(records.last() == records[i]);
            }
        }
    }
}

/// The resolver state after feeding a sequence of events, in order.
pub open spec fn spec_state_after(s: State, events: Seq<EventType>) -> State
    decreases events.len(),
{
    if events.len() == 0 {
        s
    } else {
        spec_add_state(spec_state_after(s, events.drop_last()), events.last())
    }
}

/// Drains a record stream as the read-only capture engine does: each record
/// decodes to at most one event, undecodable records are dropped without
/// failing the capture, and the decoded events come out exactly once each,
/// in stream order, stamped with the reception time and with the name the
/// resolver gives a key press in the state the earlier events built up.
pub fn listen_drain(queue: &Vec<InputEventRecord>, keyboard: &mut Keyboard, time: u64) -> (events:
    Vec<Event>)
    ensures
        events@.len() == spec_decoded_events(queue@).len(),
        final(keyboard).view_state() == spec_state_after(
            old(keyboard).view_state(),
            spec_decoded_events(queue@),
        ),
        forall|i: int|
            0 <= i < events@.len() ==> {
                let ds = spec_decoded_events(queue@);
                let st = spec_state_after(old(keyboard).view_state(), ds.take(i));
                &&& (#[trigger] events@[i]).event_type == ds[i]
                &&& events@[i].time == time
                &&& (events@[i].name is Some <==> spec_add_name(st, ds[i]) is Some)
                &&& (events@[i].name matches Some(n) ==> n@ == seq![spec_add_name(st, ds[i])->0])
            },
{
    let ghost s0 = keyboard.view_state();
    let mut events: Vec<Event> = Vec::new();
    let mut j: usize = 0;
    while j < queue.len()
        invariant
            j <= queue.len(),
            events@.len() == spec_decoded_events(queue@.take(j as int)).len(),
            keyboard.view_state() == spec_state_after(s0, spec_decoded_events(queue@.take(j as int))),
            forall|i: int|
                0 <= i < events@.len() ==> {
                    let ds = spec_decoded_events(queue@.take(j as int));
                    let st = spec_state_after(s0, ds.take(i));
                    &&& (#[trigger] events@[i]).event_type == ds[i]
                    &&& events@[i].time == time
                    &&& (events@[i].name is Some <==> spec_add_name(st, ds[i]) is Some)
                    &&& (events@[i].name matches Some(n) ==> n@ == seq![
                        spec_add_name(st, ds[i])->0,
                    ])
                },
        decreases queue.len() - j,
    {
        let ghost dsj = spec_decoded_events(queue@.take(j as int));
        proof {
            assert(queue@.take(j + 1).drop_last() =~= queue@.take(j as int));
            assert(queue@.take(j + 1).last() == queue@[j as int]);
        }
        let record = queue[j];
        match evdev_event_to_rdev_event(&record) {
            Some(event_type) => {
                proof {
                    assert(spec_decoded_events(queue@.take(j + 1)) == dsj.push(event_type));
                    assert(dsj.push(event_type).drop_last() =~= dsj);
                    assert(dsj.take(dsj.len() as int) =~= dsj);
                    assert forall|i: int| 0 <= i <= dsj.len() implies #[trigger] dsj.push(
                        event_type,
                    ).take(i) =~= dsj.take(i) by {}
                }
                let name = keyboard.add(&event_type);
                events.push(Event { event_type, time, name });
            },
            None => {
                proof {
                    assert(spec_decoded_events(queue@.take(j + 1)) == dsj);
                }
            },
        }
        j += 1;
    }
    proof {
        assert(queue@.take(queue@.len() as int) =~= queue@);
    }
    events
}

/// Whether a grab callback is a pure filter: every verdict either passes
/// the event through unchanged or suppresses it.
pub open spec fn spec_is_filter<F: Fn(Event) -> Option<Event>>(f: F) -> bool {
    forall|e: Event, r: Option<Event>| #[trigger] f.ensures((e,), r) ==> r == Some(e) || r is None
}

/// Whether a grab callback suppresses every press of a key: its verdict on
/// any event carrying that key press is always `None`.
pub open spec fn spec_discards_key<F: Fn(Event) -> Option<Event>>(f: F, key: Key) -> bool {
    forall|e: Event, r: Option<Event>|
        #[trigger] f.ensures((e,), r) ==> (e.event_type == EventType::KeyPress(key) ==> r is None)
}

/// Whether a grab callback passes everything: its verdict is always the
/// event unchanged.
pub open spec fn spec_passes_all<F: Fn(Event) -> Option<Event>>(f: F) -> bool {
    forall|e: Event, r: Option<Event>| #[trigger] f.ensures((e,), r) ==> r == Some(e)
}

/// Whether a grab callback suppresses exactly the presses of one key: its
/// verdict is `None` on any event carrying that key press and the event
/// unchanged on everything else.
pub open spec fn spec_passes_except<F: Fn(Event) -> Option<Event>>(f: F, key: Key) -> bool {
    forall|e: Event, r: Option<Event>|
        #[trigger] f.ensures((e,), r) ==> if e.event_type == EventType::KeyPress(key) {
            r is None
        } else {
            r == Some(e)
        }
}

/// The records that do not decode to a press of the given key.
pub open spec fn spec_not_key_press(key: Key) -> spec_fn(InputEventRecord) -> bool {
    |rec: InputEventRecord|
        spec_evdev_event_to_rdev_event(rec) != Some(EventType::KeyPress(key))
}

/// Drains a record stream as the grab engine does, deciding per record what
/// the rest of the system sees: an undecodable record passes through
/// untouched; a decoded event goes to the callback, and the original record
/// passes when the verdict is the event unchanged, a replacement record is
/// synthesized when the verdict is a different event (falling back to the
/// original where the replacement cannot be encoded), and nothing is
/// emitted when the verdict is `None`.
///
/// Laws: a filter callback that suppresses every press of a key leaves no
/// record in the output that decodes to a press of that key; a callback
/// that passes everything leaves the stream exactly as it was; and a
/// callback that suppresses exactly one key's presses leaves exactly the
/// records of the other events, in their order.
pub fn grab_drain<F: Fn(Event) -> Option<Event>>(
    queue: &Vec<InputEventRecord>,
    callback: &F,
    time: u64,
) -> (out: Vec<InputEventRecord>)
    requires
        forall|e: Event| #[trigger] callback.requires((e,)),
    ensures
        out@.len() <= queue@.len(),
        forall|k: Key|
            spec_is_filter(*callback) && #[trigger] spec_discards_key(*callback, k) ==> forall|
                i: int,
            |
                0 <= i < out@.len() ==> spec_evdev_event_to_rdev_event(#[trigger] out@[i]) != Some(
                    EventType::KeyPress(k),
                ),
        spec_passes_all(*callback) ==> out@ == queue@,
        forall|k: Key|
            #[trigger] spec_passes_except(*callback, k) ==> out@ == queue@.filter(
                spec_not_key_press(k),
            ),
{
    let mut out: Vec<InputEventRecord> = Vec::new();
    let mut j: usize = 0;
    while j < queue.len()
        invariant
            forall|e: Event| #[trigger] callback.requires((e,)),
            j <= queue.len(),
            out@.len() <= j,
            forall|k: Key|
                spec_is_filter(*callback) && #[trigger] spec_discards_key(*callback, k) ==> forall|
                    i: int,
                |
                    0 <= i < out@.len() ==> spec_evdev_event_to_rdev_event(#[trigger] out@[i])
                        != Some(EventType::KeyPress(k)),
            spec_passes_all(*callback) ==> out@ == queue@.take(j as int),
            forall|k: Key|
                #[trigger] spec_passes_except(*callback, k) ==> out@ == queue@.take(
                    j as int,
                ).filter(spec_not_key_press(k)),
        decreases queue.len() - j,
    {
        let ghost prev_out = out@;
        proof {
            assert(queue@.take(j + 1).drop_last() =~= queue@.take(j as int));
            assert(queue@.take(j + 1).last() == queue@[j as int]);
        }
        let record = queue[j];
        match evdev_event_to_rdev_event(&record) {
            Some(event_type) => {
                let event = Event { event_type, time, name: None };
                let ghost passed_event = event;
                match callback(event) {
                    Some(replacement) => {
                        if replacement.event_type == event_type {
                            // The verdict left the event alone: the original
                            // record proceeds, no synthesis.
                            out.push(record);
                        } else {
                            // The verdict substituted another event: encode
                            // it and suppress the original; where the
                            // replacement has no encoding, the original
                            // proceeds instead.
                            match rdev_event_to_evdev_event(
                                &replacement.event_type,
                                record.time_sec,
                                record.time_usec,
                            ) {
                                Some(rec) => out.push(rec),
                                None => out.push(record),
                            }
                        }
                        proof {
                            assert forall|k: Key| #[trigger] spec_passes_except(*callback, k)
                                implies out@ == queue@.take(j + 1).filter(
                                spec_not_key_press(k),
                            ) by {
                                reveal_with_fuel(Seq::<_>::filter, 2);
                                assert(callback.ensures((passed_event,), Some(replacement)));
                                assert(replacement == passed_event);
                                assert(event_type != EventType::KeyPress(k));
                                assert(spec_not_key_press(k)(record));
                                assert(out@ == prev_out.push(record));
                            }
                        }
                    },
                    None => {
                        // The verdict suppressed the event: nothing proceeds.
                        proof {
                            assert forall|k: Key| #[trigger] spec_passes_except(*callback, k)
                                implies out@ == queue@.take(j + 1).filter(
                                spec_not_key_press(k),
                            ) by {
                                reveal_with_fuel(Seq::<_>::filter, 2);
                                assert(callback.ensures((passed_event,), None::<Event>));
                                assert(passed_event.event_type == EventType::KeyPress(k));
                                assert(!spec_not_key_press(k)(record));
                            }
                        }
                    },
                }
            },
            None => {
                out.push(record);
                proof {
                    assert forall|k: Key| #[trigger] spec_passes_except(*callback, k)
                        implies out@ == queue@.take(j + 1).filter(spec_not_key_press(k)) by {
                        reveal_with_fuel(Seq::<_>::filter, 2);
                        assert(spec_not_key_press(k)(record));
                        assert(out@ == prev_out.push(record));
                    }
                }
            },
        }
        j += 1;
    }
    proof {
        assert(queue@.take(queue@.len() as int) =~= queue@);
    }
    out
}

/// Law: a simulated press and release of a mapped named key reach a
/// listener as exactly those two events, in that order: the two encoded
/// records decode back to exactly the press and the release.
pub proof fn lemma_simulate_listen_round_trip(key: Key, sec: i64, usec: i64)
    requires
        !(key is Unknown),
        spec_rdev_event_to_evdev_event(EventType::KeyPress(key), sec, usec) is Some,
    ensures
        ({
            let press = spec_rdev_event_to_evdev_event(EventType::KeyPress(key), sec, usec)->0;
            let release = spec_rdev_event_to_evdev_event(EventType::KeyRelease(key), sec, usec)->0;
            spec_decoded_events(seq![press, release]) =~= seq![
                EventType::KeyPress(key),
                EventType::KeyRelease(key),
            ]
        }),
{
    let press = spec_rdev_event_to_evdev_event(EventType::KeyPress(key), sec, usec)->0;
    let release = spec_rdev_event_to_evdev_event(EventType::KeyRelease(key), sec, usec)->0;
    crate::linux::wayland::grab::lemma_key_event_round_trip(key, sec, usec);
    let records = seq![press, release];
    assert(records.drop_last() =~= seq![press]);
    assert(seq![press].drop_last() =~= Seq::<InputEventRecord>::empty());
    assert(spec_decoded_events(Seq::<InputEventRecord>::empty()) == Seq::<EventType>::empty());
    assert(spec_decoded_events(seq![press]) =~= seq![EventType::KeyPress(key)]);
}

} // verus!
