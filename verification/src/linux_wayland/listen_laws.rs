//! What holds of a listener over many steps.

use super::capture;
use super::codes::RawEvent;
use super::devices;
use super::devices::DevicePath;
use super::listen;
use super::listen::{FetchOutcome, ListenPhase, ListenReply};
use super::open;
use super::open::{OpenDevice, OpenOutcome, ScanReply, SetupReply};
use super::poll;
use crate::events::Event;
use vstd::prelude::*;

verus! {

/// What is reported of `events`, where `locations` tell where the pointer is when it is
/// asked for at each of them.
pub open spec fn reports<C>(events: Seq<RawEvent>, locations: Seq<(C, C)>) -> Seq<Event<C>>
    decreases events.len(),
{
    if events.len() == 0 {
        Seq::empty()
    } else {
        let rest = reports(events.drop_first(), locations.drop_first());
        match capture::captured(events[0], Ok(locations[0])) {
            Ok(Some(event)) => seq![event] + rest,
            _ => rest,
        }
    }
}

/// What a listener does with its first event while it is not told to stop: what it is
/// like afterwards, what it asks for next, and what it has handed to the callback.
pub open spec fn look_at_event<C, D>(
    listener: listen::ListenView<D>,
    location: (C, C),
) -> (listen::ListenView<D>, listen::ListenActionView<C, D>, Seq<Event<C>>) {
    let (next, action) = listener.step(ListenReply::<C, D>::Stop(false));
    match action {
        listen::ListenActionView::Deliver(event) => {
            let (end, after) = next.step(ListenReply::<C, D>::Delivered);
            (end, after, seq![event])
        },
        listen::ListenActionView::Locate => {
            let (located, answer) = next.step(ListenReply::<C, D>::Located(Ok(location)));
            match answer {
                listen::ListenActionView::Deliver(event) => {
                    let (end, after) = located.step(ListenReply::<C, D>::Delivered);
                    (end, after, seq![event])
                },
                _ => (located, answer, Seq::empty()),
            }
        },
        _ => (next, action, Seq::empty()),
    }
}

/// What a listener that has asked for `action` does with as many events of a device as there
/// are `locations`, while it is not told to stop.
pub open spec fn look_at_batch<C, D>(
    listener: listen::ListenView<D>,
    action: listen::ListenActionView<C, D>,
    locations: Seq<(C, C)>,
) -> (listen::ListenView<D>, listen::ListenActionView<C, D>, Seq<Event<C>>)
    decreases locations.len(),
{
    if locations.len() == 0 {
        (listener, action, Seq::empty())
    } else {
        let (next, asked, first) = look_at_event(listener, locations[0]);
        let (end, after, rest) = look_at_batch(next, asked, locations.drop_first());
        (end, after, first + rest)
    }
}

/// The events of a device are looked at one by one: what has been handed to the callback
/// after some of them is what is reported of these, in their order and nothing else.
pub proof fn events_are_reported_one_by_one<C, D>(
    listener: listen::ListenView<D>,
    locations: Seq<(C, C)>,
)
    requires
        listener.phase == ListenPhase::EventStopCheck,
        listener.batch.len() > 0,
        locations.len() <= listener.batch.len(),
    ensures
        ({
            let k = locations.len() as int;
            let (end, after, delivered) = look_at_batch(
                listener,
                listen::ListenActionView::<C, D>::CheckStop,
                locations,
            );
            &&& delivered == reports(listener.batch.take(k), locations)
            &&& (end, after) == (listen::ListenView {
                batch: listener.batch.skip(k),
                ..listener
            }).at_next_event::<C>()
        }),
    decreases locations.len(),
{
    let k = locations.len() as int;
    let asked = listen::ListenActionView::<C, D>::CheckStop;
    if k == 0 {
        assert(listener.batch.skip(0) =~= listener.batch);
        assert(listener.batch.take(0) =~= Seq::empty());
    } else {
        let (next, after, first) = look_at_event(listener, locations[0]);
        let rest = listener.batch.drop_first();
        let seen = listener.batch.take(k);
        assert(first =~= match capture::captured(listener.batch[0], Ok(locations[0])) {
            Ok(Some(event)) => seq![event],
            _ => Seq::empty(),
        });
        assert((next, after) == listen::ListenView { batch: rest, ..listener }.at_next_event::<
            C,
        >());
        assert(seen.drop_first() =~= rest.take(k - 1));
        assert(rest.skip(k - 1) =~= listener.batch.skip(k));
        if k == 1 {
            assert(rest.take(0) =~= Seq::empty());
            assert(rest.skip(0) =~= rest);
            assert(locations.drop_first() =~= Seq::empty());
            assert(reports(rest.take(0), locations.drop_first()) =~= Seq::empty());
            assert(look_at_batch(next, after, locations.drop_first()).2 =~= Seq::empty());
        } else {
            events_are_reported_one_by_one(next, locations.drop_first());
            assert(next.batch == rest && after == asked);
        }
        assert(seen[0] == listener.batch[0]);
        assert(reports(seen, locations) =~= first + reports(
            seen.drop_first(),
            locations.drop_first(),
        ));
        assert(look_at_batch(listener, asked, locations).2 =~= reports(seen, locations));
    }
}

/// All events of a device are looked at, in their order, and what is reported of them is
/// handed to the callback, in that order and nothing else; then the next device is read.
pub proof fn every_event_is_reported_in_order<C, D>(
    listener: listen::ListenView<D>,
    locations: Seq<(C, C)>,
)
    requires
        listener.phase == ListenPhase::EventStopCheck,
        listener.batch.len() > 0,
        locations.len() == listener.batch.len(),
    ensures
        ({
            let (end, after, delivered) = look_at_batch(
                listener,
                listen::ListenActionView::<C, D>::CheckStop,
                locations,
            );
            &&& delivered == reports(listener.batch, locations)
            &&& (end, after) == (listen::ListenView {
                batch: Seq::empty(),
                ready: listener.ready.drop_first(),
                ..listener
            }).at_next_device::<C>()
        }),
{
    events_are_reported_one_by_one(listener, locations);
    let n = listener.batch.len() as int;
    assert(listener.batch.take(n) =~= listener.batch);
    assert(listener.batch.skip(n) =~= Seq::empty());
}

/// How reading one device ended, and where the pointer is when it is asked for at each of
/// the events that are looked at.
pub struct Reading<C> {
    pub outcome: FetchOutcome,
    pub locations: Seq<(C, C)>,
}

impl<C> Reading<C> {
    /// The events that were read: none where the device had none after all.
    pub open spec fn events(self) -> Seq<RawEvent> {
        match self.outcome {
            FetchOutcome::Events(events) => events@,
            _ => Seq::empty(),
        }
    }

    /// The device could be read, and all of its events are looked at.
    pub open spec fn is_complete(self) -> bool {
        &&& !(self.outcome is Failed)
        &&& self.locations.len() == self.events().len()
    }
}

/// What is reported of `readings`, one after the other.
pub open spec fn all_reports<C>(readings: Seq<Reading<C>>) -> Seq<Event<C>>
    decreases readings.len(),
{
    if readings.len() == 0 {
        Seq::empty()
    } else {
        reports(readings[0].events(), readings[0].locations) + all_reports(readings.drop_first())
    }
}

/// What a listener does that has asked for `action` and is not told to stop, where reading
/// one device after the other gives `readings`: what it is like afterwards, what it asks
/// for next, which devices it has read, and what it has handed to the callback.
pub open spec fn read_devices<C, D>(
    listener: listen::ListenView<D>,
    action: listen::ListenActionView<C, D>,
    readings: Seq<Reading<C>>,
) -> (
    listen::ListenView<D>,
    listen::ListenActionView<C, D>,
    Seq<usize>,
    Seq<Event<C>>,
)
    decreases readings.len(),
{
    if readings.len() > 0 && action is Fetch {
        let reading = readings[0];
        let (fetched, asked) = listener.step(ListenReply::<C, D>::Fetched(reading.outcome));
        let (done, next, first) = look_at_batch(fetched, asked, reading.locations);
        let (end, after, read, rest) = read_devices(done, next, readings.drop_first());
        (end, after, seq![action->Fetch_0] + read, first + rest)
    } else {
        (listener, action, Seq::empty(), Seq::empty())
    }
}

proof fn lemma_read_devices<C, D>(listener: listen::ListenView<D>, readings: Seq<Reading<C>>)
    requires
        readings.len() <= listener.ready.len(),
        forall|i: int| 0 <= i < readings.len() ==> (#[trigger] readings[i]).is_complete(),
    ensures
        ({
            let n = readings.len() as int;
            let (start, action) = listener.at_next_device::<C>();
            let (end, after, read, delivered) = read_devices(start, action, readings);
            &&& read == listener.ready.take(n)
            &&& delivered == all_reports(readings)
            &&& (end, after) == (listen::ListenView {
                batch: if n == 0 {
                    listener.batch
                } else {
                    Seq::empty()
                },
                ready: listener.ready.skip(n),
                ..listener
            }).at_next_device::<C>()
        }),
    decreases readings.len(),
{
    let n = readings.len() as int;
    let (start, action) = listener.at_next_device::<C>();
    if n == 0 {
        assert(listener.ready.skip(0) =~= listener.ready);
        assert(listener.ready.take(0) =~= Seq::empty());
    } else {
        let reading = readings[0];
        let rest = readings.drop_first();
        let (fetched, asked) = start.step(ListenReply::<C, D>::Fetched(reading.outcome));
        let next = listen::ListenView {
            batch: Seq::empty(),
            ready: listener.ready.drop_first(),
            ..listener
        };
        let (done, after, first) = look_at_batch(fetched, asked, reading.locations);
        assert(reading.is_complete());
        if reading.events().len() > 0 {
            every_event_is_reported_in_order(fetched, reading.locations);
        } else {
            assert(reading.events() =~= Seq::empty());
            assert(reports(reading.events(), reading.locations) =~= Seq::empty());
            assert(first =~= Seq::empty());
        }
        assert((done, after) == next.at_next_device::<C>());
        assert forall|i: int| 0 <= i < rest.len() implies (#[trigger] rest[i]).is_complete() by {
            assert(rest[i] == readings[i + 1]);
        }
        lemma_read_devices(next, rest);
        assert(seq![listener.ready[0]] + next.ready.take(n - 1) =~= listener.ready.take(n));
        assert(next.ready.skip(n - 1) =~= listener.ready.skip(n));
    }
}

/// What a listener is like, what it asks for, which devices it has read, and what it has
/// handed to the callback, once polling has given `revents` and reading the first devices
/// `readings`, while it is not told to stop.
pub open spec fn round<C, D>(
    listener: listen::ListenView<D>,
    revents: Vec<Option<i16>>,
    readings: Seq<Reading<C>>,
) -> (
    listen::ListenView<D>,
    listen::ListenActionView<C, D>,
    Seq<usize>,
    Seq<Event<C>>,
) {
    let (start, action) = listener.step(ListenReply::<C, D>::Polled(Ok(revents)));
    read_devices(start, action, readings)
}

proof fn lemma_round<C, D>(
    listener: listen::ListenView<D>,
    revents: Vec<Option<i16>>,
    readings: Seq<Reading<C>>,
)
    requires
        readings.len() <= poll::ready_indices(revents@).len(),
        forall|i: int| 0 <= i < readings.len() ==> (#[trigger] readings[i]).is_complete(),
    ensures
        ({
            let n = readings.len() as int;
            let ready = poll::ready_indices(revents@);
            let (end, after, read, delivered) = round(listener, revents, readings);
            &&& read == ready.take(n)
            &&& delivered == all_reports(readings)
            &&& (end, after) == (listen::ListenView {
                batch: if n == 0 {
                    listener.batch
                } else {
                    Seq::empty()
                },
                ready: ready.skip(n),
                disconnected: poll::gone_indices(revents@),
                ..listener
            }).at_next_device::<C>()
        }),
{
    lemma_read_devices(
        listen::ListenView {
            ready: poll::ready_indices(revents@),
            disconnected: poll::gone_indices(revents@),
            ..listener
        },
        readings,
    );
}

/// In one round all devices that have events and are not gone are read, in their order,
/// and what is reported of their events is handed to the callback, in that order and
/// nothing else; a device that has no events after all is passed over. Then the devices
/// that are gone are forgotten, and the others are kept.
pub proof fn a_round_reads_every_device_that_has_events<C, D>(
    listener: listen::ListenView<D>,
    revents: Vec<Option<i16>>,
    readings: Seq<Reading<C>>,
)
    requires
        listener.wf(),
        listener.accepts(ListenReply::<C, D>::Polled(Ok(revents))),
        readings.len() == poll::ready_indices(revents@).len(),
        forall|i: int| 0 <= i < readings.len() ==> (#[trigger] readings[i]).is_complete(),
    ensures
        ({
            let (end, after, read, delivered) = round(listener, revents, readings);
            &&& read == poll::ready_indices(revents@)
            &&& delivered == all_reports(readings)
            &&& end.devices == poll::survivors(listener.devices, poll::gone_indices(revents@))
            &&& end.phase == ListenPhase::ScanClock
            &&& after is ReadClock
        }),
{
    lemma_round(listener, revents, readings);
    let ready = poll::ready_indices(revents@);
    assert(ready.take(ready.len() as int) =~= ready);
}

/// A round that ends early has handed to the callback what is reported of the events before
/// its end, and nothing else. All devices of `readings` have been read, and of `last`, the
/// device after them, as many events as it has `locations`. If the listener is told to stop
/// at the next event, it returns without an error; if it is not, and that event is a motion,
/// but the place of the pointer cannot be had, it returns the message that says so.
pub proof fn an_early_end_cuts_the_reports_short<C, D>(
    listener: listen::ListenView<D>,
    revents: Vec<Option<i16>>,
    readings: Seq<Reading<C>>,
    last: Reading<C>,
    e: String,
)
    requires
        listener.wf(),
        listener.accepts(ListenReply::<C, D>::Polled(Ok(revents))),
        readings.len() < poll::ready_indices(revents@).len(),
        forall|i: int| 0 <= i < readings.len() ==> (#[trigger] readings[i]).is_complete(),
        last.locations.len() < last.events().len(),
    ensures
        ({
            let k = last.locations.len() as int;
            let (before, action, read, delivered) = round(listener, revents, readings);
            let (fetched, asked) = before.step(ListenReply::<C, D>::Fetched(last.outcome));
            let (end, after, more) = look_at_batch(fetched, asked, last.locations);
            let (looking, question) = end.step(ListenReply::<C, D>::Stop(false));
            &&& action == listen::ListenActionView::<C, D>::Fetch(
                poll::ready_indices(revents@)[readings.len() as int],
            )
            &&& delivered + more == all_reports(readings) + reports(
                last.events().take(k),
                last.locations,
            )
            &&& after is CheckStop
            &&& end.step(ListenReply::<C, D>::Stop(true)).1
                == listen::ListenActionView::<C, D>::Return(Ok(()))
            &&& capture::is_motion(last.events()[k]) ==> {
                &&& question is Locate
                &&& looking.step(ListenReply::<C, D>::Located(Err(e))).1
                    == listen::ListenActionView::<C, D>::Return(
                    Err(listen::location_message(e@)),
                )
            }
        }),
{
    lemma_round(listener, revents, readings);
    let k = last.locations.len() as int;
    let before = round(listener, revents, readings).0;
    let fetched = before.step(ListenReply::<C, D>::Fetched(last.outcome)).0;
    assert(last.outcome is Events);
    events_are_reported_one_by_one(fetched, last.locations);
    assert(fetched.batch.skip(k)[0] == last.events()[k]);
}

/// A device that cannot be read ends the round: the listener returns the message that names
/// the device, and has handed to the callback what is reported of the devices before it.
pub proof fn a_device_that_fails_ends_the_round<C, D>(
    listener: listen::ListenView<D>,
    revents: Vec<Option<i16>>,
    readings: Seq<Reading<C>>,
    e: String,
)
    requires
        listener.wf(),
        listener.accepts(ListenReply::<C, D>::Polled(Ok(revents))),
        readings.len() < poll::ready_indices(revents@).len(),
        forall|i: int| 0 <= i < readings.len() ==> (#[trigger] readings[i]).is_complete(),
    ensures
        ({
            let index = poll::ready_indices(revents@)[readings.len() as int];
            let (before, action, read, delivered) = round(listener, revents, readings);
            &&& action == listen::ListenActionView::<C, D>::Fetch(index)
            &&& delivered == all_reports(readings)
            &&& before.step(ListenReply::<C, D>::Fetched(FetchOutcome::Failed(e))).1
                == listen::ListenActionView::<C, D>::Return(
                Err(
                    "Input device "@ + listener.devices[index as int].path.display@ + " failed: "@
                        + e@,
                ),
            )
        }),
{
    lemma_round(listener, revents, readings);
}

/// What a listener does with the devices that have appeared, where opening one after the
/// other gives `opened`, each with whether it is relevant, and all that are relevant can be
/// configured: what it is like afterwards, and what it asks for next.
pub open spec fn open_appeared<C, D>(
    listener: listen::ListenView<D>,
    action: listen::ListenActionView<C, D>,
    opened: Seq<(D, bool)>,
) -> (listen::ListenView<D>, listen::ListenActionView<C, D>)
    decreases opened.len(),
{
    if opened.len() > 0 && action is Open {
        let (next, asked) = listener.step(ListenReply::<C, D>::Opened(Ok(opened[0])));
        let (done, after) = match asked {
            listen::ListenActionView::Configure(device) => next.step(
                ListenReply::<C, D>::Configured { device, outcome: Ok(()) },
            ),
            _ => (next, asked),
        };
        open_appeared(done, after, opened.drop_first())
    } else {
        (listener, action)
    }
}

/// The devices among `opened` that are relevant, with their paths, in order.
pub open spec fn relevant_devices<D>(paths: Seq<DevicePath>, opened: Seq<(D, bool)>) -> Seq<
    OpenDevice<D>,
>
    decreases opened.len(),
{
    if opened.len() == 0 {
        Seq::empty()
    } else {
        let rest = relevant_devices(paths.drop_first(), opened.drop_first());
        if opened[0].1 {
            seq![OpenDevice { path: paths[0], device: opened[0].0 }] + rest
        } else {
            rest
        }
    }
}

proof fn lemma_open_appeared<C, D>(listener: listen::ListenView<D>, opened: Seq<(D, bool)>)
    requires
        opened.len() == listener.paths.len(),
    ensures
        ({
            let (start, action) = listener.at_next_path::<C>();
            open_appeared(start, action, opened) == (listen::ListenView {
                devices: listener.devices + relevant_devices(listener.paths, opened),
                paths: Seq::empty(),
                ..listener
            }).at_next_path::<C>()
        }),
    decreases opened.len(),
{
    if opened.len() == 0 {
        assert(listener.paths =~= Seq::empty());
        assert(listener.devices + relevant_devices(listener.paths, opened) =~= listener.devices);
    } else {
        let (device, relevant) = opened[0];
        let next = listen::ListenView {
            devices: if relevant {
                listener.devices.push(OpenDevice { path: listener.paths[0], device })
            } else {
                listener.devices
            },
            paths: listener.paths.drop_first(),
            ..listener
        };
        lemma_open_appeared::<C, D>(next, opened.drop_first());
        assert(next.devices + relevant_devices(next.paths, opened.drop_first())
            =~= listener.devices + relevant_devices(listener.paths, opened));
    }
}

/// A search for devices opens all that report events and are not open yet, in the order of
/// their names, and adds those that are relevant; the devices that were open stay.
pub proof fn a_search_adds_the_devices_that_have_appeared<C, D>(
    listener: listen::ListenView<D>,
    entries: Vec<DevicePath>,
    opened: Seq<(D, bool)>,
)
    requires
        listener.wf(),
        listener.accepts(ListenReply::<C, D>::Entries(Ok(entries))),
        opened.len() == listen::new_paths(
            devices::event_paths(entries@),
            listener.devices,
        ).len(),
    ensures
        ({
            let paths = listen::new_paths(devices::event_paths(entries@), listener.devices);
            let (start, action) = listener.step(ListenReply::<C, D>::Entries(Ok(entries)));
            let (end, after) = open_appeared(start, action, opened);
            &&& end.devices == listener.devices + relevant_devices(paths, opened)
            &&& end.phase == ListenPhase::ResetClock
            &&& after is ReadClock
        }),
{
    let paths = listen::new_paths(devices::event_paths(entries@), listener.devices);
    lemma_open_appeared::<C, D>(listen::ListenView { paths, ..listener }, opened);
}

/// A listener that is told to stop returns at once, without an error and without handing
/// anything more to the callback: also in the middle of the events of a device.
pub proof fn stopping_takes_effect_at_once<C, D>(listener: listen::ListenView<D>)
    requires
        listener.accepts(ListenReply::<C, D>::Stop(true)),
    ensures
        listener.step(ListenReply::<C, D>::Stop(true)).0.phase == ListenPhase::Finished,
        listener.step(ListenReply::<C, D>::Stop(true)).1
            == listen::ListenActionView::<C, D>::Return(Ok(())),
{
}

/// What is handed to the callback has no name: the devices give none.
pub proof fn delivered_events_have_no_name<C, D>(
    listener: listen::ListenView<D>,
    reply: ListenReply<C, D>,
)
    ensures
        listener.step(reply).1 matches listen::ListenActionView::Deliver(event) ==> event.name
            is None,
{
}

/// A listener that has returned accepts nothing more, and it is only by returning that
/// it ends.
pub proof fn only_returning_ends_a_listener<C, D>(
    listener: listen::ListenView<D>,
    reply: ListenReply<C, D>,
)
    requires
        listener.wf(),
        listener.accepts(reply),
    ensures
        listener.phase != ListenPhase::Finished,
        listener.step(reply).0.phase == ListenPhase::Finished <==> listener.step(reply).1
            is Return,
{
}

/// The file names of `paths`.
pub open spec fn path_names(paths: Seq<DevicePath>) -> Seq<Seq<u8>> {
    paths.map_values(|path: DevicePath| path.file_name@)
}

/// The file names of `devices`.
pub open spec fn device_names<D>(devices: Seq<OpenDevice<D>>) -> Seq<Seq<u8>> {
    devices.map_values(|device: OpenDevice<D>| device.path.file_name@)
}

/// No device is there twice, be it open or still to be opened.
pub open spec fn each_device_once<D>(listener: listen::ListenView<D>) -> bool {
    let scan = listener.setup.scan;
    &&& (device_names(listener.devices) + path_names(listener.paths)).no_duplicates()
    &&& (device_names(scan.devices) + path_names(scan.paths)).no_duplicates()
}

/// What `reply` says of the directory of input devices lists no name twice.
pub open spec fn lists_names_once<C, D>(reply: ListenReply<C, D>) -> bool {
    match reply {
        ListenReply::Entries(Ok(entries)) => path_names(entries@).no_duplicates(),
        ListenReply::Setup(SetupReply::Scan(ScanReply::Entries(Ok(entries)))) => path_names(
            entries@,
        ).no_duplicates(),
        _ => true,
    }
}

proof fn lemma_inserted_names(paths: Seq<DevicePath>, path: DevicePath)
    requires
        path_names(paths).no_duplicates(),
        !path_names(paths).contains(path.file_name@),
    ensures
        path_names(devices::inserted(paths, path)).no_duplicates(),
        forall|name: Seq<u8>| #[trigger]
            path_names(devices::inserted(paths, path)).contains(name) <==> path_names(
                paths,
            ).contains(name) || name == path.file_name@,
    decreases paths.len(),
{
    let r = devices::inserted(paths, path);
    if paths.len() == 0 || devices::bytes_le(path.file_name@, paths[0].file_name@) {
        assert(path_names(r) =~= seq![path.file_name@] + path_names(paths));
        lemma_prepend(path_names(paths), path.file_name@);
    } else {
        let rest = paths.drop_first();
        let tail = devices::inserted(rest, path);
        let first = paths[0].file_name@;
        assert(path_names(paths) =~= seq![first] + path_names(rest));
        lemma_prepended(path_names(rest), first);
        lemma_inserted_names(rest, path);
        assert(path_names(r) =~= seq![first] + path_names(tail));
        assert(first != path.file_name@) by {
            assert(path_names(paths)[0] == first);
        }
        lemma_prepend(path_names(tail), first);
    }
}

proof fn lemma_prepend(names: Seq<Seq<u8>>, first: Seq<u8>)
    ensures
        names.no_duplicates() && !names.contains(first) ==> (seq![first] + names).no_duplicates(),
        forall|name: Seq<u8>| #[trigger]
            (seq![first] + names).contains(name) <==> names.contains(name) || name == first,
{
    let all = seq![first] + names;
    assert forall|name: Seq<u8>| #[trigger] all.contains(name) <==> names.contains(name) || name
        == first by {
        assert(all[0] == first);
        if names.contains(name) {
            assert(all[names.index_of(name) + 1] == name);
        }
        if all.contains(name) {
            let k = all.index_of(name);
            if k > 0 {
                assert(names[k - 1] == name);
            }
        }
    }
    if names.no_duplicates() && !names.contains(first) {
        assert forall|i: int, j: int| 0 <= i < all.len() && 0 <= j < all.len() && i
            != j implies all[i] != all[j] by {
            if i > 0 {
                assert(all[i] == names[i - 1]);
            }
            if j > 0 {
                assert(all[j] == names[j - 1]);
            }
        }
    }
}

proof fn lemma_prepended(names: Seq<Seq<u8>>, first: Seq<u8>)
    requires
        (seq![first] + names).no_duplicates(),
    ensures
        names.no_duplicates(),
        !names.contains(first),
        forall|name: Seq<u8>| #[trigger]
            (seq![first] + names).contains(name) <==> names.contains(name) || name == first,
{
    let all = seq![first] + names;
    lemma_prepend(names, first);
    assert forall|i: int, j: int| 0 <= i < names.len() && 0 <= j < names.len() && i
        != j implies names[i] != names[j] by {
        assert(all[i + 1] == names[i] && all[j + 1] == names[j]);
    }
    if names.contains(first) {
        let k = names.index_of(first);
        assert(all[k + 1] == first && all[0] == first);
    }
}

proof fn lemma_event_path_names(entries: Seq<DevicePath>)
    requires
        path_names(entries).no_duplicates(),
    ensures
        path_names(devices::event_paths(entries)).no_duplicates(),
        forall|name: Seq<u8>| #[trigger]
            path_names(devices::event_paths(entries)).contains(name) ==> path_names(
                entries,
            ).contains(name),
    decreases entries.len(),
{
    if entries.len() > 0 {
        let rest = entries.drop_first();
        let first = entries[0].file_name@;
        assert(path_names(entries) =~= seq![first] + path_names(rest));
        lemma_prepended(path_names(rest), first);
        lemma_event_path_names(rest);
        if devices::is_event_device(entries[0]) {
            lemma_inserted_names(devices::event_paths(rest), entries[0]);
        }
    }
}

/// The paths that are kept are those that are not known, and none is there twice.
proof fn lemma_new_path_names<D>(paths: Seq<DevicePath>, devices: Seq<OpenDevice<D>>)
    requires
        path_names(paths).no_duplicates(),
    ensures
        path_names(listen::new_paths(paths, devices)).no_duplicates(),
        forall|name: Seq<u8>| #[trigger]
            path_names(listen::new_paths(paths, devices)).contains(name) ==> path_names(
                paths,
            ).contains(name) && !device_names(devices).contains(name),
    decreases paths.len(),
{
    if paths.len() > 0 {
        let rest = paths.drop_last();
        let last = paths.last();
        let names = path_names(paths);
        assert(path_names(rest) =~= names.drop_last());
        assert(names.last() == last.file_name@);
        assert(names.drop_last().no_duplicates());
        lemma_new_path_names(rest, devices);
        let kept = listen::new_paths(rest, devices);
        assert(forall|name: Seq<u8>| #[trigger]
            path_names(rest).contains(name) ==> names.contains(name)) by {
            assert forall|name: Seq<u8>| #[trigger] path_names(rest).contains(name) implies names.contains(
                name,
            ) by {
                assert(names[path_names(rest).index_of(name)] == name);
            }
        }
        if !listen::is_known(last, devices) {
            let all = listen::new_paths(paths, devices);
            assert(path_names(all) =~= path_names(kept).push(last.file_name@));
            assert(!path_names(rest).contains(last.file_name@)) by {
                if path_names(rest).contains(last.file_name@) {
                    let k = path_names(rest).index_of(last.file_name@);
                    assert(names[k] == names[names.len() - 1]);
                }
            }
            assert(!path_names(kept).contains(last.file_name@));
            assert(!device_names(devices).contains(last.file_name@)) by {
                if device_names(devices).contains(last.file_name@) {
                    let k = device_names(devices).index_of(last.file_name@);
                    assert(devices[k].path.file_name@ == last.file_name@);
                }
            }
            lemma_push(path_names(kept), last.file_name@);
            assert(names[names.len() - 1] == last.file_name@);
        }
    }
}

proof fn lemma_push(names: Seq<Seq<u8>>, last: Seq<u8>)
    ensures
        names.no_duplicates() && !names.contains(last) ==> names.push(last).no_duplicates(),
        forall|name: Seq<u8>| #[trigger]
            names.push(last).contains(name) <==> names.contains(name) || name == last,
{
    let all = names.push(last);
    assert forall|name: Seq<u8>| #[trigger] all.contains(name) <==> names.contains(name) || name
        == last by {
        assert(all[names.len() as int] == last);
        if names.contains(name) {
            assert(all[names.index_of(name)] == name);
        }
        if all.contains(name) {
            let k = all.index_of(name);
            if k < names.len() {
                assert(names[k] == name);
            }
        }
    }
    if names.no_duplicates() && !names.contains(last) {
        assert forall|i: int, j: int| 0 <= i < all.len() && 0 <= j < all.len() && i
            != j implies all[i] != all[j] by {
            if i < names.len() {
                assert(all[i] == names[i]);
            }
            if j < names.len() {
                assert(all[j] == names[j]);
            }
        }
    }
}

proof fn lemma_survivor_names<D>(devices: Seq<OpenDevice<D>>, gone: Seq<usize>)
    requires
        device_names(devices).no_duplicates(),
    ensures
        device_names(poll::survivors(devices, gone)).no_duplicates(),
        forall|name: Seq<u8>| #[trigger]
            device_names(poll::survivors(devices, gone)).contains(name) ==> device_names(
                devices,
            ).contains(name),
    decreases devices.len(),
{
    if devices.len() > 0 {
        let rest = devices.drop_last();
        let names = device_names(devices);
        let last = devices.last().path.file_name@;
        assert(device_names(rest) =~= names.drop_last());
        assert(names.last() == last);
        assert(names.drop_last().no_duplicates());
        lemma_survivor_names(rest, gone);
        assert(names =~= device_names(rest).push(last));
        lemma_push(device_names(rest), last);
        let kept = poll::survivors(rest, gone);
        assert(!device_names(rest).contains(last)) by {
            if device_names(rest).contains(last) {
                let k = device_names(rest).index_of(last);
                assert(names[k] == names[names.len() - 1]);
            }
        }
        if !gone.contains((devices.len() - 1) as usize) {
            assert(device_names(poll::survivors(devices, gone)) =~= device_names(kept).push(last));
            lemma_push(device_names(kept), last);
        }
    }
}

/// Splitting a list of names without repetitions.
proof fn lemma_split(a: Seq<Seq<u8>>, b: Seq<Seq<u8>>)
    ensures
        (a + b).no_duplicates() <==> a.no_duplicates() && b.no_duplicates() && (forall|
            name: Seq<u8>,
        | #[trigger]
            b.contains(name) ==> !a.contains(name)),
{
    let all = a + b;
    if all.no_duplicates() {
        assert forall|i: int, j: int| 0 <= i < a.len() && 0 <= j < a.len() && i
            != j implies a[i] != a[j] by {
            assert(all[i] == a[i] && all[j] == a[j]);
        }
        assert forall|i: int, j: int| 0 <= i < b.len() && 0 <= j < b.len() && i
            != j implies b[i] != b[j] by {
            assert(all[a.len() + i] == b[i] && all[a.len() + j] == b[j]);
        }
        assert forall|name: Seq<u8>| #[trigger] b.contains(name) implies !a.contains(name) by {
            if a.contains(name) {
                assert(all[a.index_of(name)] == name);
                assert(all[a.len() + b.index_of(name)] == name);
            }
        }
    }
    if a.no_duplicates() && b.no_duplicates() && (forall|name: Seq<u8>| #[trigger]
        b.contains(name) ==> !a.contains(name)) {
        assert forall|i: int, j: int| 0 <= i < all.len() && 0 <= j < all.len() && i
            != j implies all[i] != all[j] by {
            if i < a.len() && j >= a.len() {
                assert(b.contains(b[j - a.len()]));
            }
            if j < a.len() && i >= a.len() {
                assert(b.contains(b[i - a.len()]));
            }
        }
    }
}

/// The first path is dropped, or its device is moved to those that are open.
proof fn lemma_path_dealt_with<D>(devices: Seq<OpenDevice<D>>, paths: Seq<DevicePath>, device: D)
    requires
        paths.len() > 0,
        (device_names(devices) + path_names(paths)).no_duplicates(),
    ensures
        (device_names(devices) + path_names(paths.drop_first())).no_duplicates(),
        (device_names(devices.push(OpenDevice { path: paths[0], device })) + path_names(
            paths.drop_first(),
        )).no_duplicates(),
{
    let rest = paths.drop_first();
    let first = paths[0].file_name@;
    let more = devices.push(OpenDevice { path: paths[0], device });
    assert(path_names(paths) =~= seq![first] + path_names(rest));
    lemma_split(device_names(devices), path_names(paths));
    lemma_prepended(path_names(rest), first);
    assert(path_names(paths).contains(first));
    assert forall|name: Seq<u8>| #[trigger] path_names(rest).contains(name) implies !device_names(
        devices,
    ).contains(name) by {
        assert(path_names(paths).contains(name));
    }
    lemma_split(device_names(devices), path_names(rest));
    assert(device_names(more) =~= device_names(devices).push(first));
    lemma_push(device_names(devices), first);
    lemma_split(device_names(more), path_names(rest));
}

proof fn lemma_scan_keeps_devices_once<D>(scan: open::ScanView<D>, reply: ScanReply<D>)
    requires
        scan.wf(),
        scan.accepts(reply),
        (device_names(scan.devices) + path_names(scan.paths)).no_duplicates(),
        reply matches ScanReply::Entries(Ok(entries)) ==> path_names(entries@).no_duplicates(),
    ensures
        ({
            let next = scan.step(reply).0;
            (device_names(next.devices) + path_names(next.paths)).no_duplicates()
        }),
{
    match reply {
        ScanReply::Entries(Ok(entries)) => {
            lemma_event_path_names(entries@);
            assert(device_names(scan.devices) =~= Seq::empty());
            assert(device_names(scan.devices) + path_names(devices::event_paths(entries@))
                =~= path_names(devices::event_paths(entries@)));
        },
        ScanReply::Opened(OpenOutcome::Opened { device, .. }) => {
            lemma_path_dealt_with(scan.devices, scan.paths, device);
        },
        ScanReply::Opened(OpenOutcome::Denied) => {
            lemma_path_dealt_with(scan.devices, scan.paths, arbitrary());
        },
        ScanReply::Configured { device, .. } => {
            lemma_path_dealt_with(scan.devices, scan.paths, device);
        },
        _ => {},
    }
}

/// A listener never holds a device twice: what is open is not opened again, as long as
/// the directory of input devices lists no name twice.
pub proof fn no_device_is_opened_twice<C, D>(
    listener: listen::ListenView<D>,
    reply: ListenReply<C, D>,
)
    requires
        listener.wf(),
        listener.accepts(reply),
        lists_names_once(reply),
        each_device_once(listener),
    ensures
        each_device_once(listener.step(reply).0),
{
    let next = listener.step(reply).0;
    let names = device_names(listener.devices);
    lemma_split(names, path_names(listener.paths));
    match reply {
        ListenReply::Setup(SetupReply::Scan(r)) => {
            lemma_scan_keeps_devices_once(listener.setup.scan, r);
        },
        ListenReply::Setup(SetupReply::Pointer(Ok(()))) => {
            let scan = listener.setup.scan;
            lemma_split(device_names(scan.devices), path_names(scan.paths));
            assert(device_names(next.devices) + path_names(next.paths) =~= device_names(
                scan.devices,
            ));
            assert(device_names(next.setup.scan.devices) + path_names(next.setup.scan.paths)
                =~= path_names(scan.paths));
        },
        ListenReply::Entries(Ok(entries)) => {
            let paths = devices::event_paths(entries@);
            lemma_event_path_names(entries@);
            lemma_new_path_names(paths, listener.devices);
            lemma_split(names, path_names(listen::new_paths(paths, listener.devices)));
        },
        ListenReply::Opened(Ok((device, false))) => {
            lemma_path_dealt_with(listener.devices, listener.paths, device);
        },
        ListenReply::Configured { device, outcome: Ok(()) } => {
            lemma_path_dealt_with(listener.devices, listener.paths, device);
        },
        _ => {
            if next.devices != listener.devices {
                assert(listener.paths =~= Seq::empty());
                assert(next.paths == listener.paths);
                let gone = match reply {
                    ListenReply::Polled(Ok(revents)) => poll::gone_indices(revents@),
                    _ => listener.disconnected,
                };
                assert(next.devices == poll::survivors(listener.devices, gone));
                lemma_survivor_names(listener.devices, gone);
                assert(device_names(next.devices) + path_names(next.paths) =~= device_names(
                    next.devices,
                ));
            }
        },
    }
}

/// A listener that has just been made holds no device at all, so none twice.
pub proof fn a_new_listener_holds_no_device<D>()
    ensures
        listen::ListenView::<D>::fresh().devices.len() == 0,
        each_device_once(listen::ListenView::<D>::fresh()),
{
}

} // verus!
