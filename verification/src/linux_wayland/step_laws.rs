//! What each step of opening the devices and of listening to them comes to.

use super::capture;
use super::codes::RawEvent;
use super::devices;
use super::devices::DevicePath;
use super::listen;
use super::listen::{FetchOutcome, Listen, ListenAction, ListenPhase, ListenReply};
use super::open;
use super::open::{
    CaptureSetup, DeviceScan, OpenDevice, OpenOutcome, ScanAction, ScanPhase, ScanReply,
    SetupAction, SetupPhase, SetupReply,
};
use super::poll;
use crate::events::{Event, EventType};
use crate::text;
use vstd::prelude::*;

verus! {

/// A scan that is through with a device goes on with `paths`, if there are any. Else it is
/// over: if any device was denied, it says how many, whatever else was found; if none was, and
/// none was found, it says that; else it has succeeded.
pub open spec fn is_past_a_device<D>(
    next: open::ScanView<D>,
    action: open::ScanActionView<D>,
    paths: Seq<DevicePath>,
    devices: Seq<OpenDevice<D>>,
    denied: int,
) -> bool {
    &&& next.paths == paths
    &&& next.devices == devices
    &&& next.denied == denied
    &&& paths.len() > 0 ==> next.phase == ScanPhase::Opening && action is Open
    &&& paths.len() == 0 ==> {
        &&& next.phase == ScanPhase::Finished
        &&& denied > 0 ==> action == open::ScanActionView::<D>::Return(
            Err(
                "Wayland global capture requires read access to /dev/input/event* ("@
                    + text::decimal(denied as nat)
                    + " denied). Configure a persistent input-device permission before starting the listener."@,
            ),
        )
        &&& denied <= 0 && devices.len() == 0 ==> action == open::ScanActionView::<D>::Return(
            Err("No keyboard or pointer input devices were found"@),
        )
        &&& denied <= 0 && devices.len() > 0 ==> action == open::ScanActionView::<D>::Return(
            Ok(()),
        )
    }
}

/// A scan begins with the devices that are listed, and fails where none is or where they
/// cannot be listed.
pub proof fn a_scan_begins_with_what_is_listed<D>(
    scan: open::ScanView<D>,
    entries: Vec<DevicePath>,
    e: String,
)
    ensures
        ({
            let paths = devices::event_paths(entries@);
            let (next, action) = scan.step(ScanReply::<D>::Entries(Ok(entries)));
            let (end, failure) = scan.step(ScanReply::<D>::Entries(Err(e)));
            &&& next.paths == paths && next.devices == scan.devices && next.denied == scan.denied
            &&& paths.len() > 0 ==> next.phase == ScanPhase::Opening && action is Open
            &&& paths.len() == 0 ==> next.phase == ScanPhase::Finished && action
                == open::ScanActionView::<D>::Return(
                Err("No /dev/input/event* devices were found"@),
            )
            &&& end.phase == ScanPhase::Finished
            &&& failure == open::ScanActionView::<D>::Return(
                Err("Cannot enumerate /dev/input: "@ + e@),
            )
        }),
{
}

/// A device that is relevant is configured and then kept, after those that were found before
/// it; one that is not is passed over; one that is denied is counted. Each is tried once.
pub proof fn a_scan_deals_with_each_device<D>(scan: open::ScanView<D>, device: D)
    requires
        scan.paths.len() > 0,
    ensures
        ({
            let opened = |relevant: bool|
                ScanReply::Opened(OpenOutcome::Opened { device, relevant });
            let rest = scan.paths.drop_first();
            let kept = scan.devices.push(OpenDevice { path: scan.paths[0], device });
            let (next, action) = scan.step(ScanReply::Configured { device, outcome: Ok(()) });
            let (over, passing) = scan.step(opened(false));
            let (denied, counting) = scan.step(ScanReply::<D>::Opened(OpenOutcome::Denied));
            &&& scan.step(opened(true)) == (
                open::ScanView { phase: ScanPhase::Configuring, ..scan },
                open::ScanActionView::<D>::Configure(device),
            )
            &&& is_past_a_device(next, action, rest, kept, scan.denied as int)
            &&& is_past_a_device(over, passing, rest, scan.devices, scan.denied as int)
            &&& is_past_a_device(denied, counting, rest, scan.devices, (scan.denied + 1) as int)
        }),
{
}

/// A device that cannot be opened or configured ends the scan, with a message that names it
/// and holds the whole error.
pub proof fn a_scan_ends_with_what_fails<D>(scan: open::ScanView<D>, device: D, e: String)
    requires
        scan.paths.len() > 0,
    ensures
        ({
            let end = open::ScanView { phase: ScanPhase::Finished, ..scan };
            &&& scan.step(ScanReply::<D>::Opened(OpenOutcome::Failed(e))) == (
                end,
                open::ScanActionView::<D>::Return(
                    Err("Cannot open "@ + scan.paths[0].display@ + ": "@ + e@),
                ),
            )
            &&& scan.step(ScanReply::<D>::Configured { device, outcome: Err(e) }) == (
                end,
                open::ScanActionView::<D>::Return(
                    Err("Cannot configure "@ + scan.paths[0].display@ + ": "@ + e@),
                ),
            )
        }),
{
}

/// A scan takes every answer to what it has asked for, and so does a setup.
pub proof fn scans_take_every_answer<D>(
    scan: open::ScanView<D>,
    setup: open::SetupView<D>,
    reply: ScanReply<D>,
    opened: Result<(), String>,
)
    requires
        match reply {
            ScanReply::Entries(_) => scan.phase == ScanPhase::Enumerating,
            ScanReply::Opened(_) => scan.phase == ScanPhase::Opening,
            ScanReply::Configured { .. } => scan.phase == ScanPhase::Configuring,
        },
    ensures
        scan.accepts(reply),
        setup.phase == SetupPhase::Devices && setup.scan == scan ==> setup.accepts(
            SetupReply::Scan(reply),
        ),
        setup.phase == SetupPhase::Pointer ==> setup.accepts(SetupReply::<D>::Pointer(opened)),
{
}

/// A setup hands on what its scan asks for and the error that ends it; once the scan has
/// succeeded, the connection to the pointer is opened, and that decides.
pub proof fn a_setup_scans_and_then_connects<D>(
    setup: open::SetupView<D>,
    reply: ScanReply<D>,
    e: String,
)
    requires
        setup.phase == SetupPhase::Devices,
    ensures
        ({
            let (scan, asked) = setup.scan.step(reply);
            let (next, action) = setup.step(SetupReply::Scan(reply));
            let end = open::SetupView { phase: SetupPhase::Finished, ..setup };
            &&& next.scan == scan
            &&& asked is Open ==> action is Open && next.phase == SetupPhase::Devices
            &&& asked matches open::ScanActionView::Configure(device) ==> action
                == open::SetupActionView::<D>::Configure(device) && next.phase
                == SetupPhase::Devices
            &&& asked matches open::ScanActionView::Return(Err(message)) ==> action
                == open::SetupActionView::<D>::Return(Err(message)) && next.phase
                == SetupPhase::Finished
            &&& asked matches open::ScanActionView::Return(Ok(_)) ==> action is OpenPointer
                && next.phase == SetupPhase::Pointer
            &&& setup.step(SetupReply::<D>::Pointer(Ok(()))) == (
                end,
                open::SetupActionView::<D>::Return(Ok(())),
            )
            &&& setup.step(SetupReply::<D>::Pointer(Err(e))) == (
                end,
                open::SetupActionView::<D>::Return(
                    Err("Cannot connect to XWayland for absolute pointer coordinates: "@ + e@),
                ),
            )
        }),
{
}

/// While a listener is being set up it hands on what the setup asks for and the error that
/// ends it; once the setup has succeeded, its devices are those that are listened to.
pub proof fn a_listener_listens_to_what_was_set_up<C, D>(
    listener: listen::ListenView<D>,
    reply: SetupReply<D>,
)
    requires
        listener.phase == ListenPhase::Setup,
    ensures
        ({
            let (setup, asked) = listener.setup.step(reply);
            let (next, action) = listener.step(ListenReply::<C, D>::Setup(reply));
            &&& next.last_scan == listener.last_scan && next.ready == listener.ready
            &&& next.disconnected == listener.disconnected && next.batch == listener.batch
            &&& next.paths == listener.paths
            &&& match asked {
                open::SetupActionView::Return(Ok(_)) => {
                    &&& next.devices == setup.scan.devices
                    &&& next.phase == ListenPhase::StartClock
                    &&& action is ReadClock
                },
                open::SetupActionView::Return(Err(message)) => {
                    &&& next.devices == listener.devices
                    &&& next.phase == ListenPhase::Finished
                    &&& action == listen::ListenActionView::<C, D>::Return(Err(message))
                },
                _ => {
                    &&& next.devices == listener.devices
                    &&& next.setup == setup
                    &&& next.phase == ListenPhase::Setup
                    &&& action == listen::ListenActionView::<C, D>::Setup(asked)
                },
            }
        }),
{
}

/// Devices are looked for if and only if a whole second has passed since they were last, or
/// since the listener started; the time at which they have been is then what counts.
pub proof fn devices_are_looked_for_every_second<C, D>(listener: listen::ListenView<D>, now: u64)
    ensures
        ({
            let (next, action) = listener.step(ListenReply::<C, D>::Clock(now));
            let passed = now - listener.last_scan;
            &&& next.devices == listener.devices && next.ready == listener.ready
            &&& next.disconnected == listener.disconnected && next.batch == listener.batch
            &&& next.paths == listener.paths && next.setup == listener.setup
            &&& listener.phase == ListenPhase::ScanClock ==> {
                &&& next.last_scan == listener.last_scan
                &&& passed >= 1_000_000_000 ==> next.phase == ListenPhase::Enumerating && action
                    is Enumerate
                &&& passed < 1_000_000_000 ==> next.phase == ListenPhase::StopCheck && action
                    is CheckStop
            }
            &&& listener.phase == ListenPhase::StartClock || listener.phase
                == ListenPhase::ResetClock ==> {
                &&& next.last_scan == now
                &&& next.phase == ListenPhase::StopCheck
                &&& action is CheckStop
            }
        }),
{
}

/// Being told to stop ends a listener at once, and nothing else of it changes. Being told not
/// to, it polls its devices for a tenth of a second, or looks at the event that it was about
/// to.
pub proof fn a_listener_does_as_it_is_told<C, D>(listener: listen::ListenView<D>)
    ensures
        listener.step(ListenReply::<C, D>::Stop(true)) == (
            listen::ListenView { phase: ListenPhase::Finished, ..listener },
            listen::ListenActionView::<C, D>::Return(Ok(())),
        ),
        listener.phase == ListenPhase::StopCheck ==> listener.step(
            ListenReply::<C, D>::Stop(false),
        ) == (
            listen::ListenView { phase: ListenPhase::Polling, ..listener },
            listen::ListenActionView::<C, D>::Poll(100),
        ),
{
}

/// A listener goes on with `ready` and `batch`: with the first event of the batch, if there is
/// one; else with the device after the first that is ready; else the round is over, and the
/// devices are kept that are not gone.
pub open spec fn goes_on<C, D>(
    listener: listen::ListenView<D>,
    ready: Seq<usize>,
    disconnected: Seq<usize>,
    batch: Seq<RawEvent>,
    next: listen::ListenView<D>,
    action: listen::ListenActionView<C, D>,
) -> bool {
    &&& next.setup == listener.setup && next.last_scan == listener.last_scan
    &&& next.paths == listener.paths
    &&& next.batch == batch
    &&& next.ready == ready
    &&& batch.len() > 0 ==> {
        &&& next.phase == ListenPhase::EventStopCheck && action is CheckStop
        &&& next.devices == listener.devices && next.disconnected == disconnected
    }
    &&& batch.len() == 0 && ready.len() > 0 ==> {
        &&& next.phase == ListenPhase::Fetching
        &&& action == listen::ListenActionView::<C, D>::Fetch(ready[0])
        &&& next.devices == listener.devices && next.disconnected == disconnected
    }
    &&& batch.len() == 0 && ready.len() == 0 ==> {
        &&& next.phase == ListenPhase::ScanClock && action is ReadClock
        &&& next.disconnected.len() == 0
        &&& next.devices == poll::kept_indices(listener.devices.len(), disconnected).map_values(
            |i: int| listener.devices[i],
        )
    }
}

/// After a poll the devices that are ready are read, the first of them first.
pub proof fn a_poll_is_followed_by_reading<C, D>(
    listener: listen::ListenView<D>,
    revents: Vec<Option<i16>>,
    e: String,
)
    requires
        listener.batch.len() == 0,
    ensures
        ({
            let (next, action) = listener.step(ListenReply::<C, D>::Polled(Ok(revents)));
            goes_on(
                listener,
                poll::ready_indices(revents@),
                poll::gone_indices(revents@),
                listener.batch,
                next,
                action,
            )
        }),
        listener.step(ListenReply::<C, D>::Polled(Err(e))) == (
            listen::ListenView { phase: ListenPhase::Finished, ..listener },
            listen::ListenActionView::<C, D>::Return(Err("Input poll failed: "@ + e@)),
        ),
{
    poll::survivors_are_the_kept_items(listener.devices, poll::gone_indices(revents@));
}

/// What is read from a device is looked at from its first event on; a device without events is
/// passed over; one that cannot be read ends the listener, with a message that names it and
/// holds the whole error.
pub proof fn what_is_read_is_looked_at<C, D>(
    listener: listen::ListenView<D>,
    events: Vec<RawEvent>,
    e: String,
)
    requires
        listener.ready.len() > 0,
    ensures
        ({
            let (next, action) = listener.step(
                ListenReply::<C, D>::Fetched(FetchOutcome::Events(events)),
            );
            let (over, passing) = listener.step(
                ListenReply::<C, D>::Fetched(FetchOutcome::WouldBlock),
            );
            let rest = listener.ready.drop_first();
            &&& goes_on(
                listener,
                if events@.len() > 0 {
                    listener.ready
                } else {
                    rest
                },
                listener.disconnected,
                events@,
                next,
                action,
            )
            &&& goes_on(
                listener,
                rest,
                listener.disconnected,
                Seq::empty(),
                over,
                passing,
            )
        }),
        listener.step(ListenReply::<C, D>::Fetched(FetchOutcome::Failed(e))) == (
            listen::ListenView { phase: ListenPhase::Finished, ..listener },
            listen::ListenActionView::<C, D>::Return(
                Err(
                    "Input device "@ + listener.devices[listener.ready[0] as int].path.display@
                        + " failed: "@ + e@,
                ),
            ),
        ),
{
    poll::survivors_are_the_kept_items(listener.devices, listener.disconnected);
}

/// The event that is looked at is passed over, handed to the callback, or asks for the place of
/// the pointer, as its meaning has it. Once it has been delivered the next is looked at.
pub proof fn an_event_is_dealt_with_by_its_meaning<C, D>(
    listener: listen::ListenView<D>,
    x: C,
    y: C,
    e: String,
)
    requires
        listener.phase != ListenPhase::StopCheck,
        listener.batch.len() > 0,
        listener.ready.len() > 0,
    ensures
        ({
            let rest = listener.batch.drop_first();
            let ready = if rest.len() > 0 {
                listener.ready
            } else {
                listener.ready.drop_first()
            };
            let delivering = listen::ListenView { phase: ListenPhase::Delivering, ..listener };
            let (next, action) = listener.step(ListenReply::<C, D>::Stop(false));
            let (past, after) = listener.step(ListenReply::<C, D>::Delivered);
            let (placed, answer) = listener.step(ListenReply::<C, D>::Located(Ok((x, y))));
            &&& match capture::meaning_of::<C>(listener.batch[0]) {
                capture::Meaning::Nothing => goes_on(
                    listener,
                    ready,
                    listener.disconnected,
                    rest,
                    next,
                    action,
                ),
                capture::Meaning::Event(event_type) => next == delivering && action
                    == listen::ListenActionView::<C, D>::Deliver(Event { event_type, name: None }),
                capture::Meaning::PointerMoved => next == (listen::ListenView {
                    phase: ListenPhase::Locating,
                    ..listener
                }) && action is Locate,
            }
            &&& placed == delivering && answer == listen::ListenActionView::<C, D>::Deliver(
                Event { event_type: EventType::MouseMove { x, y }, name: None },
            )
            &&& goes_on(listener, ready, listener.disconnected, rest, past, after)
            &&& listener.step(ListenReply::<C, D>::Located(Err(e))) == (
                listen::ListenView { phase: ListenPhase::Finished, ..listener },
                listen::ListenActionView::<C, D>::Return(
                    Err("Cannot query pointer location: "@ + e@),
                ),
            )
        }),
{
    poll::survivors_are_the_kept_items(listener.devices, listener.disconnected);
}

/// The paths that are new are those whose file name no device has, in their order.
pub proof fn new_paths_are_those_of_no_device<D>(
    paths: Seq<DevicePath>,
    devices: Seq<OpenDevice<D>>,
)
    ensures
        listen::new_paths(paths, devices) == paths.filter(
            |path: DevicePath|
                forall|i: int|
                    0 <= i < devices.len() ==> (#[trigger] devices[i]).path.file_name@
                        != path.file_name@,
        ),
    decreases paths.len(),
{
    reveal(Seq::filter);
    if paths.len() > 0 {
        new_paths_are_those_of_no_device(paths.drop_last(), devices);
        let last = paths.last();
        if listen::is_known(last, devices) {
            let i = choose|i: int|
                0 <= i < devices.len() && #[trigger] devices[i].path.file_name@
                    == last.file_name@;
            assert(devices[i].path.file_name@ == last.file_name@);
        }
    }
}

/// A listener goes on with `paths`: with the first, if there is one; else the search is over.
pub open spec fn goes_on_searching<C, D>(
    listener: listen::ListenView<D>,
    paths: Seq<DevicePath>,
    devices: Seq<OpenDevice<D>>,
    next: listen::ListenView<D>,
    action: listen::ListenActionView<C, D>,
) -> bool {
    if paths.len() > 0 {
        &&& next == (listen::ListenView { phase: ListenPhase::Opening, paths, devices, ..listener })
        &&& action is Open
    } else {
        &&& next == (listen::ListenView {
            phase: ListenPhase::ResetClock,
            paths,
            devices,
            ..listener
        })
        &&& action is ReadClock
    }
}

/// A search opens the devices that are listed and not known; each that is relevant is
/// configured and added after those that are there, and each that is not is passed over.
pub proof fn a_search_deals_with_each_new_device<C, D>(
    listener: listen::ListenView<D>,
    entries: Vec<DevicePath>,
    device: D,
)
    ensures
        ({
            let paths = listen::new_paths(devices::event_paths(entries@), listener.devices);
            let (next, action) = listener.step(ListenReply::<C, D>::Entries(Ok(entries)));
            goes_on_searching(listener, paths, listener.devices, next, action)
        }),
        listener.paths.len() > 0 ==> {
            let rest = listener.paths.drop_first();
            let more = listener.devices.push(OpenDevice { path: listener.paths[0], device });
            let (over, passing) = listener.step(ListenReply::<C, D>::Opened(Ok((device, false))));
            let (added, adding) = listener.step(
                ListenReply::<C, D>::Configured { device, outcome: Ok(()) },
            );
            &&& listener.step(ListenReply::<C, D>::Opened(Ok((device, true)))) == (
                listen::ListenView { phase: ListenPhase::Configuring, ..listener },
                listen::ListenActionView::<C, D>::Configure(device),
            )
            &&& goes_on_searching(listener, rest, listener.devices, over, passing)
            &&& goes_on_searching(listener, rest, more, added, adding)
        },
{
}

/// What fails in a search ends the listener, with a message that holds the whole error, and
/// names the device where it is about one.
pub proof fn a_search_ends_with_what_fails<C, D>(
    listener: listen::ListenView<D>,
    device: D,
    e: String,
)
    requires
        listener.paths.len() > 0,
    ensures
        ({
            let end = listen::ListenView { phase: ListenPhase::Finished, ..listener };
            let path = listener.paths[0].display@;
            let fails = |reply: ListenReply<C, D>, message: Seq<char>|
                listener.step(reply) == (
                    end,
                    listen::ListenActionView::<C, D>::Return(Err(message)),
                );
            &&& fails(ListenReply::Entries(Err(e)), "Cannot enumerate /dev/input: "@ + e@)
            &&& fails(
                ListenReply::Opened(Err(e)),
                "Cannot open new input device "@ + path + ": "@ + e@,
            )
            &&& fails(
                ListenReply::Configured { device, outcome: Err(e) },
                "Cannot configure "@ + path + ": "@ + e@,
            )
        }),
{
}

/// A listener takes every answer to what it has asked for; a poll gives as many flags as there
/// are devices.
pub proof fn a_listener_takes_every_answer<C, D>(
    listener: listen::ListenView<D>,
    reply: ListenReply<C, D>,
)
    requires
        match reply {
            ListenReply::Setup(r) => listener.phase == ListenPhase::Setup && match r {
                SetupReply::Pointer(_) => listener.setup.phase == SetupPhase::Pointer,
                SetupReply::Scan(s) => listener.setup.phase == SetupPhase::Devices && match s {
                    ScanReply::Entries(_) => listener.setup.scan.phase == ScanPhase::Enumerating,
                    ScanReply::Opened(_) => listener.setup.scan.phase == ScanPhase::Opening,
                    ScanReply::Configured { .. } => listener.setup.scan.phase
                        == ScanPhase::Configuring,
                },
            },
            ListenReply::Clock(_) => listener.phase == ListenPhase::StartClock || listener.phase
                == ListenPhase::ScanClock || listener.phase == ListenPhase::ResetClock,
            ListenReply::Stop(_) => listener.phase == ListenPhase::StopCheck || listener.phase
                == ListenPhase::EventStopCheck,
            ListenReply::Polled(Ok(revents)) => listener.phase == ListenPhase::Polling
                && revents@.len() == listener.devices.len(),
            ListenReply::Polled(Err(_)) => listener.phase == ListenPhase::Polling,
            ListenReply::Fetched(_) => listener.phase == ListenPhase::Fetching,
            ListenReply::Located(_) => listener.phase == ListenPhase::Locating,
            ListenReply::Delivered => listener.phase == ListenPhase::Delivering,
            ListenReply::Entries(_) => listener.phase == ListenPhase::Enumerating,
            ListenReply::Opened(_) => listener.phase == ListenPhase::Opening,
            ListenReply::Configured { .. } => listener.phase == ListenPhase::Configuring,
        },
    ensures
        listener.accepts(reply),
{
}

/// What is said of a scan, a setup and a listener is all that they hold; so is what is said of
/// a fresh one.
pub proof fn states_are_shown_whole<D>(
    scan: DeviceScan<D>,
    setup: CaptureSetup<D>,
    listener: Listen<D>,
)
    ensures
        scan@.phase == scan.phase && scan@.paths == scan.paths@,
        scan@.devices == scan.devices@ && scan@.denied == scan.denied,
        setup@.phase == setup.phase && setup@.scan == setup.scan@,
        listener@.phase == listener.phase && listener@.setup == listener.setup@,
        listener@.devices == listener.devices@ && listener@.last_scan == listener.last_scan,
        listener@.ready == listener.ready@ && listener@.disconnected == listener.disconnected@,
        listener@.batch == listener.batch@ && listener@.paths == listener.paths@,
        open::ScanView::<D>::fresh().phase == ScanPhase::Enumerating,
        open::ScanView::<D>::fresh().paths.len() == 0,
        open::ScanView::<D>::fresh().devices.len() == 0,
        open::ScanView::<D>::fresh().denied == 0,
        open::SetupView::<D>::fresh().phase == SetupPhase::Devices,
        open::SetupView::<D>::fresh().scan == open::ScanView::<D>::fresh(),
        listen::ListenView::<D>::fresh().phase == ListenPhase::Setup,
        listen::ListenView::<D>::fresh().setup == open::SetupView::<D>::fresh(),
        listen::ListenView::<D>::fresh().devices.len() == 0,
        listen::ListenView::<D>::fresh().ready.len() == 0,
        listen::ListenView::<D>::fresh().disconnected.len() == 0,
        listen::ListenView::<D>::fresh().batch.len() == 0,
        listen::ListenView::<D>::fresh().paths.len() == 0,
{
}

/// What is said of an action is all that it holds.
pub proof fn actions_are_shown_whole<C, D>(
    scan: ScanAction<D>,
    setup: SetupAction<D>,
    action: ListenAction<C, D>,
)
    ensures
        match scan {
            ScanAction::Open => scan@ is Open,
            ScanAction::Configure(device) => scan@ == open::ScanActionView::<D>::Configure(device),
            ScanAction::Return(Ok(())) => scan@ == open::ScanActionView::<D>::Return(Ok(())),
            ScanAction::Return(Err(message)) => scan@ == open::ScanActionView::<D>::Return(
                Err(message@),
            ),
        },
        match setup {
            SetupAction::Open => setup@ is Open,
            SetupAction::Configure(device) => setup@ == open::SetupActionView::<D>::Configure(
                device,
            ),
            SetupAction::OpenPointer => setup@ is OpenPointer,
            SetupAction::Return(Ok(())) => setup@ == open::SetupActionView::<D>::Return(Ok(())),
            SetupAction::Return(Err(message)) => setup@ == open::SetupActionView::<D>::Return(
                Err(message@),
            ),
        },
        match action {
            ListenAction::Setup(a) => action@ == listen::ListenActionView::<C, D>::Setup(a@),
            ListenAction::ReadClock => action@ is ReadClock,
            ListenAction::CheckStop => action@ is CheckStop,
            ListenAction::Poll(timeout) => action@ == listen::ListenActionView::<C, D>::Poll(
                timeout,
            ),
            ListenAction::Fetch(index) => action@ == listen::ListenActionView::<C, D>::Fetch(index),
            ListenAction::Locate => action@ is Locate,
            ListenAction::Deliver(event) => action@ == listen::ListenActionView::<C, D>::Deliver(
                event,
            ),
            ListenAction::Enumerate => action@ is Enumerate,
            ListenAction::Open => action@ is Open,
            ListenAction::Configure(device) => action@ == listen::ListenActionView::<
                C,
                D,
            >::Configure(device),
            ListenAction::Return(Ok(())) => action@ == listen::ListenActionView::<C, D>::Return(
                Ok(()),
            ),
            ListenAction::Return(Err(message)) => action@ == listen::ListenActionView::<
                C,
                D,
            >::Return(Err(message@)),
        },
{
}

/// A scan may have found and been denied any devices, as long as it has found none before they
/// are listed, and has one at hand while it is trying it; and a setup any scan, as long as that
/// has succeeded once the connection to the pointer is waited for.
pub proof fn any_devices_can_be_found<D>(scan: DeviceScan<D>, setup: CaptureSetup<D>)
    requires
        scan.phase == ScanPhase::Enumerating ==> scan.devices@.len() == 0 && scan.denied == 0,
        scan.phase == ScanPhase::Opening || scan.phase == ScanPhase::Configuring
            ==> scan.paths@.len() > 0,
        scan.denied + scan.paths@.len() <= usize::MAX,
        setup.scan == scan,
        setup.phase == SetupPhase::Pointer ==> scan.phase == ScanPhase::Finished && scan.denied == 0
            && scan.devices@.len() > 0,
    ensures
        scan.wf(),
        setup.wf(),
{
}

/// A listener may hold any devices and any events, as long as it has at hand what it is
/// dealing with: devices that are ready while it reads, an event while it looks at one, which
/// is a motion while it asks for its place, and a path while it opens a device.
pub proof fn any_devices_can_be_listened_to<D>(listener: Listen<D>)
    requires
        listener.setup.wf(),
        listener.phase == ListenPhase::Setup ==> listener.setup.phase != SetupPhase::Finished,
        poll::ascending_below(listener.ready@, listener.devices@.len() as int),
        poll::ascending_below(listener.disconnected@, listener.devices@.len() as int),
        match listener.phase {
            ListenPhase::Finished => true,
            ListenPhase::Fetching => listener.ready@.len() > 0 && listener.paths@.len() == 0,
            ListenPhase::EventStopCheck | ListenPhase::Locating | ListenPhase::Delivering => {
                &&& listener.ready@.len() > 0 && listener.paths@.len() == 0
                &&& listener.batch@.len() > 0
                &&& listener.phase == ListenPhase::Locating ==> capture::is_motion(
                    listener.batch@[0],
                )
            },
            ListenPhase::Opening | ListenPhase::Configuring => listener.ready@.len() == 0
                && listener.disconnected@.len() == 0 && listener.paths@.len() > 0,
            _ => listener.ready@.len() == 0 && listener.disconnected@.len() == 0
                && listener.paths@.len() == 0,
        },
    ensures
        listener.wf(),
{
}

} // verus!
