//! Listening to the devices, event by event.

use super::capture;
use super::capture::{interpret, Meaning};
use super::codes::RawEvent;
use super::devices;
use super::devices::{device_paths, DevicePath};
use super::open;
use super::open::{preflight_capture, CaptureSetup, OpenDevice, SetupAction, SetupReply};
use super::poll;
use super::poll::{poll_results, remove_gone, POLL_TIMEOUT};
use crate::events::{Event, EventType};
use crate::text;
use crate::text::{join, join4};
use vstd::prelude::*;

verus! {

/// Devices are looked for again after this long, in nanoseconds.
pub const SCAN_INTERVAL: u64 = 1_000_000_000;

/// What a listener waits for.
#[derive(Clone, Copy, Debug, PartialEq, Eq, Structural)]
pub enum ListenPhase {
    /// All that capture needs is being opened.
    Setup,
    /// The time at which listening starts.
    StartClock,
    /// Whether to stop, before the devices are polled.
    StopCheck,
    /// The flags of all devices.
    Polling,
    /// The events of a device.
    Fetching,
    /// Whether to stop, before an event is looked at.
    EventStopCheck,
    /// The place of the pointer.
    Locating,
    /// The end of the callback.
    Delivering,
    /// The time, to tell whether to look for devices again.
    ScanClock,
    /// The entries of the directory of input devices.
    Enumerating,
    /// A device that has appeared.
    Opening,
    /// The configuration of a device that has appeared.
    Configuring,
    /// The time at which devices have been looked for.
    ResetClock,
    /// Nothing: it has returned.
    Finished,
}

/// A listener. Of those devices that have events, `ready` are still to be read, the
/// first of them now; `batch` are the events of that device that are still to be looked
/// at, the first of them now; `disconnected` are the devices that are gone; `paths` are
/// those of devices that have appeared, the first of them now.
pub struct Listen<D> {
    pub phase: ListenPhase,
    pub setup: CaptureSetup<D>,
    pub devices: Vec<OpenDevice<D>>,
    pub last_scan: u64,
    pub ready: Vec<usize>,
    pub disconnected: Vec<usize>,
    pub batch: Vec<RawEvent>,
    pub paths: Vec<DevicePath>,
}

/// How reading the events of a device ended.
pub enum FetchOutcome {
    Events(Vec<RawEvent>),
    WouldBlock,
    Failed(String),
}

/// How what a listener waited for has ended.
pub enum ListenReply<C, D> {
    Setup(SetupReply<D>),
    /// The time, in nanoseconds since some moment.
    Clock(u64),
    Stop(bool),
    /// The flags of each device, in the order of the devices.
    Polled(Result<Vec<Option<i16>>, String>),
    Fetched(FetchOutcome),
    Located(Result<(C, C), String>),
    Delivered,
    Entries(Result<Vec<DevicePath>, String>),
    /// The device, and whether it is relevant.
    Opened(Result<(D, bool), String>),
    Configured { device: D, outcome: Result<(), String> },
}

/// What is to be done next for a listener.
pub enum ListenAction<C, D> {
    Setup(SetupAction<D>),
    /// Read the clock.
    ReadClock,
    /// Ask whether to stop.
    CheckStop,
    /// Poll all devices for events, and wait for them this long, in milliseconds.
    Poll(u16),
    /// Read the events of the device with this index.
    Fetch(usize),
    /// Ask for the place of the pointer.
    Locate,
    /// Hand the event to the callback.
    Deliver(Event<C>),
    /// List the directory of input devices.
    Enumerate,
    /// Open the first of the listener's paths.
    Open,
    /// Make the device return at once where it has no events.
    Configure(D),
    /// Return the result.
    Return(Result<(), String>),
}

pub struct ListenView<D> {
    pub phase: ListenPhase,
    pub setup: open::SetupView<D>,
    pub devices: Seq<OpenDevice<D>>,
    pub last_scan: u64,
    pub ready: Seq<usize>,
    pub disconnected: Seq<usize>,
    pub batch: Seq<RawEvent>,
    pub paths: Seq<DevicePath>,
}

pub enum ListenActionView<C, D> {
    Setup(open::SetupActionView<D>),
    ReadClock,
    CheckStop,
    Poll(u16),
    Fetch(usize),
    Locate,
    Deliver(Event<C>),
    Enumerate,
    Open,
    Configure(D),
    Return(Result<(), Seq<char>>),
}

impl<D> View for Listen<D> {
    type V = ListenView<D>;

    open spec fn view(&self) -> ListenView<D> {
        ListenView {
            phase: self.phase,
            setup: self.setup@,
            devices: self.devices@,
            last_scan: self.last_scan,
            ready: self.ready@,
            disconnected: self.disconnected@,
            batch: self.batch@,
            paths: self.paths@,
        }
    }
}

impl<C, D> View for ListenAction<C, D> {
    type V = ListenActionView<C, D>;

    open spec fn view(&self) -> ListenActionView<C, D> {
        match *self {
            ListenAction::Setup(action) => ListenActionView::Setup(action@),
            ListenAction::ReadClock => ListenActionView::ReadClock,
            ListenAction::CheckStop => ListenActionView::CheckStop,
            ListenAction::Poll(timeout) => ListenActionView::Poll(timeout),
            ListenAction::Fetch(index) => ListenActionView::Fetch(index),
            ListenAction::Locate => ListenActionView::Locate,
            ListenAction::Deliver(event) => ListenActionView::Deliver(event),
            ListenAction::Enumerate => ListenActionView::Enumerate,
            ListenAction::Open => ListenActionView::Open,
            ListenAction::Configure(device) => ListenActionView::Configure(device),
            ListenAction::Return(r) => ListenActionView::Return(text::told(r)),
        }
    }
}

/// The device at `path` is among `devices`.
pub open spec fn is_known<D>(path: DevicePath, devices: Seq<OpenDevice<D>>) -> bool {
    exists|i: int|
        0 <= i < devices.len() && #[trigger] devices[i].path.file_name@ == path.file_name@
}

/// The paths of devices that are not among `devices`, in their order.
pub open spec fn new_paths<D>(paths: Seq<DevicePath>, devices: Seq<OpenDevice<D>>) -> Seq<
    DevicePath,
>
    decreases paths.len(),
{
    if paths.len() == 0 {
        Seq::empty()
    } else {
        let before = new_paths(paths.drop_last(), devices);
        if is_known(paths.last(), devices) {
            before
        } else {
            before.push(paths.last())
        }
    }
}

/// The message for a place of the pointer that cannot be had.
pub open spec fn location_message(e: Seq<char>) -> Seq<char> {
    "Cannot query pointer location: "@ + e
}

impl<D> ListenView<D> {
    /// A listener that waits for the entries of the directory of input devices.
    pub open spec fn fresh() -> Self {
        ListenView {
            phase: ListenPhase::Setup,
            setup: open::SetupView::fresh(),
            devices: Seq::empty(),
            last_scan: 0,
            ready: Seq::empty(),
            disconnected: Seq::empty(),
            batch: Seq::empty(),
            paths: Seq::empty(),
        }
    }

    /// The listener waits for an answer of the kind that `reply` is.
    pub open spec fn accepts<C>(self, reply: ListenReply<C, D>) -> bool {
        match reply {
            ListenReply::Setup(r) => self.phase == ListenPhase::Setup && self.setup.accepts(r),
            ListenReply::Clock(_) => self.phase == ListenPhase::StartClock || self.phase
                == ListenPhase::ScanClock || self.phase == ListenPhase::ResetClock,
            ListenReply::Stop(_) => self.phase == ListenPhase::StopCheck || self.phase
                == ListenPhase::EventStopCheck,
            ListenReply::Polled(r) => self.phase == ListenPhase::Polling && (r matches Ok(
                revents,
            ) ==> revents.len() == self.devices.len()),
            ListenReply::Fetched(_) => self.phase == ListenPhase::Fetching,
            ListenReply::Located(_) => self.phase == ListenPhase::Locating,
            ListenReply::Delivered => self.phase == ListenPhase::Delivering,
            ListenReply::Entries(_) => self.phase == ListenPhase::Enumerating,
            ListenReply::Opened(_) => self.phase == ListenPhase::Opening,
            ListenReply::Configured { .. } => self.phase == ListenPhase::Configuring,
        }
    }

    /// A device is being read.
    pub open spec fn reading(self) -> bool {
        self.phase == ListenPhase::Fetching || self.looking()
    }

    /// An event is being looked at.
    pub open spec fn looking(self) -> bool {
        self.phase == ListenPhase::EventStopCheck || self.phase == ListenPhase::Locating
            || self.phase == ListenPhase::Delivering
    }

    /// Whatever is said to be first is there, and all indices are those of devices.
    pub open spec fn wf(self) -> bool {
        &&& self.setup.wf()
        &&& self.phase == ListenPhase::Setup ==> self.setup.phase != open::SetupPhase::Finished
        &&& poll::ascending_below(self.ready, self.devices.len() as int)
        &&& poll::ascending_below(self.disconnected, self.devices.len() as int)
        &&& self.reading() ==> self.ready.len() > 0
        &&& !self.reading() && self.phase != ListenPhase::Finished ==> self.ready.len() == 0
            && self.disconnected.len() == 0
        &&& self.looking() ==> self.batch.len() > 0
        &&& self.phase == ListenPhase::Locating ==> capture::is_motion(self.batch[0])
        &&& match self.phase {
            ListenPhase::Opening | ListenPhase::Configuring => self.paths.len() > 0,
            ListenPhase::Finished => true,
            _ => self.paths.len() == 0,
        }
    }

    pub open spec fn returned<C>(self, r: Result<(), Seq<char>>) -> (Self, ListenActionView<C, D>) {
        (
            ListenView { phase: ListenPhase::Finished, ..self },
            ListenActionView::Return(r),
        )
    }

    /// On to the next device that has events; once there is none, the devices that are
    /// gone are forgotten.
    pub open spec fn at_next_device<C>(self) -> (Self, ListenActionView<C, D>) {
        if self.ready.len() > 0 {
            (
                ListenView { phase: ListenPhase::Fetching, ..self },
                ListenActionView::Fetch(self.ready[0]),
            )
        } else {
            (
                ListenView {
                    phase: ListenPhase::ScanClock,
                    devices: poll::survivors(self.devices, self.disconnected),
                    disconnected: Seq::empty(),
                    ..self
                },
                ListenActionView::ReadClock,
            )
        }
    }

    /// On to the next event of the device; once there is none, to the next device.
    pub open spec fn at_next_event<C>(self) -> (Self, ListenActionView<C, D>) {
        if self.batch.len() > 0 {
            (
                ListenView { phase: ListenPhase::EventStopCheck, ..self },
                ListenActionView::CheckStop,
            )
        } else {
            ListenView { ready: self.ready.drop_first(), ..self }.at_next_device()
        }
    }

    /// On to the event after this one.
    pub open spec fn past_event<C>(self) -> (Self, ListenActionView<C, D>) {
        ListenView { batch: self.batch.drop_first(), ..self }.at_next_event()
    }

    /// On to the next device that has appeared; once there is none, the search is over.
    pub open spec fn at_next_path<C>(self) -> (Self, ListenActionView<C, D>) {
        if self.paths.len() > 0 {
            (ListenView { phase: ListenPhase::Opening, ..self }, ListenActionView::Open)
        } else {
            (ListenView { phase: ListenPhase::ResetClock, ..self }, ListenActionView::ReadClock)
        }
    }

    /// On to the device after this one.
    pub open spec fn past_path<C>(self) -> (Self, ListenActionView<C, D>) {
        ListenView { paths: self.paths.drop_first(), ..self }.at_next_path()
    }

    /// On to the next round.
    pub open spec fn at_stop_check<C>(self) -> (Self, ListenActionView<C, D>) {
        (ListenView { phase: ListenPhase::StopCheck, ..self }, ListenActionView::CheckStop)
    }

    /// What comes of the end of a step of the setup.
    pub open spec fn after_setup<C>(self, reply: SetupReply<D>) -> (Self, ListenActionView<C, D>) {
        let (setup, action) = self.setup.step(reply);
        match action {
            open::SetupActionView::Return(Ok(())) => (
                ListenView {
                    phase: ListenPhase::StartClock,
                    setup: open::SetupView {
                        scan: open::ScanView { devices: Seq::empty(), ..setup.scan },
                        ..setup
                    },
                    devices: setup.scan.devices,
                    ..self
                },
                ListenActionView::ReadClock,
            ),
            open::SetupActionView::Return(Err(message)) => ListenView { setup, ..self }.returned(
                Err(message),
            ),
            _ => (ListenView { setup, ..self }, ListenActionView::Setup(action)),
        }
    }

    /// What comes of the time.
    pub open spec fn after_clock<C>(self, now: u64) -> (Self, ListenActionView<C, D>) {
        if self.phase != ListenPhase::ScanClock {
            ListenView { last_scan: now, ..self }.at_stop_check()
        } else if now - self.last_scan >= SCAN_INTERVAL {
            (ListenView { phase: ListenPhase::Enumerating, ..self }, ListenActionView::Enumerate)
        } else {
            self.at_stop_check()
        }
    }

    /// What comes of an event that is to be looked at.
    pub open spec fn after_event<C>(self) -> (Self, ListenActionView<C, D>) {
        match capture::meaning_of::<C>(self.batch[0]) {
            Meaning::Nothing => self.past_event(),
            Meaning::Event(event) => (
                ListenView { phase: ListenPhase::Delivering, ..self },
                ListenActionView::Deliver(capture::unnamed(event)),
            ),
            Meaning::PointerMoved => (
                ListenView { phase: ListenPhase::Locating, ..self },
                ListenActionView::Locate,
            ),
        }
    }

    /// What comes of `reply`.
    pub open spec fn step<C>(self, reply: ListenReply<C, D>) -> (Self, ListenActionView<C, D>) {
        match reply {
            ListenReply::Setup(r) => self.after_setup(r),
            ListenReply::Clock(now) => self.after_clock(now),
            ListenReply::Stop(true) => self.returned(Ok(())),
            ListenReply::Stop(false) => if self.phase == ListenPhase::StopCheck {
                (
                    ListenView { phase: ListenPhase::Polling, ..self },
                    ListenActionView::Poll(POLL_TIMEOUT),
                )
            } else {
                self.after_event()
            },
            ListenReply::Polled(Ok(revents)) => ListenView {
                ready: poll::ready_indices(revents@),
                disconnected: poll::gone_indices(revents@),
                ..self
            }.at_next_device(),
            ListenReply::Polled(Err(e)) => self.returned(Err("Input poll failed: "@ + e@)),
            ListenReply::Fetched(FetchOutcome::Events(events)) => ListenView {
                batch: events@,
                ..self
            }.at_next_event(),
            ListenReply::Fetched(FetchOutcome::WouldBlock) => ListenView {
                batch: Seq::empty(),
                ..self
            }.at_next_event(),
            ListenReply::Fetched(FetchOutcome::Failed(e)) => self.returned(
                Err(
                    "Input device "@ + self.devices[self.ready[0] as int].path.display@
                        + " failed: "@ + e@,
                ),
            ),
            ListenReply::Located(Ok((x, y))) => (
                ListenView { phase: ListenPhase::Delivering, ..self },
                ListenActionView::Deliver(capture::unnamed(EventType::MouseMove { x, y })),
            ),
            ListenReply::Located(Err(e)) => self.returned(Err(location_message(e@))),
            ListenReply::Delivered => self.past_event(),
            ListenReply::Entries(Ok(entries)) => ListenView {
                paths: new_paths(devices::event_paths(entries@), self.devices),
                ..self
            }.at_next_path(),
            ListenReply::Entries(Err(e)) => self.returned(
                Err("Cannot enumerate /dev/input: "@ + e@),
            ),
            ListenReply::Opened(Ok((device, true))) => (
                ListenView { phase: ListenPhase::Configuring, ..self },
                ListenActionView::Configure(device),
            ),
            ListenReply::Opened(Ok((device, false))) => self.past_path(),
            ListenReply::Opened(Err(e)) => self.returned(
                Err("Cannot open new input device "@ + self.paths[0].display@ + ": "@ + e@),
            ),
            ListenReply::Configured { device, outcome: Ok(()) } => ListenView {
                devices: self.devices.push(OpenDevice { path: self.paths[0], device }),
                ..self
            }.past_path(),
            ListenReply::Configured { device, outcome: Err(e) } => self.returned(
                Err("Cannot configure "@ + self.paths[0].display@ + ": "@ + e@),
            ),
        }
    }
}

/// The device at `path` is among `devices`.
fn knows<D>(devices: &Vec<OpenDevice<D>>, path: &DevicePath) -> (r: bool)
    ensures
        r == is_known(*path, devices@),
{
    let mut i: usize = 0;
    while i < devices.len()
        invariant
            i <= devices.len(),
            forall|j: int|
                0 <= j < i ==> #[trigger] devices@[j].path.file_name@ != path.file_name@,
        decreases devices.len() - i,
    {
        if devices[i].path.file_name == path.file_name {
            assert(devices@[i as int].path.file_name@ =~= path.file_name@);
            return true;
        }
        assert(devices@[i as int].path.file_name@ != path.file_name@);
        i = i + 1;
    }
    false
}

/// Removes the paths of devices that are among `devices`.
fn keep_new<D>(paths: Vec<DevicePath>, devices: &Vec<OpenDevice<D>>) -> (r: Vec<DevicePath>)
    ensures
        r@ == new_paths(paths@, devices@),
{
    let ghost all = paths@;
    let mut rest = paths;
    let mut fresh: Vec<DevicePath> = Vec::new();
    let mut i: usize = 0;
    let n: usize = rest.len();
    assert(rest@ =~= all.skip(0));
    assert(fresh@ =~= new_paths(all.take(0), devices@));
    while i < n
        invariant
            i <= n,
            n == all.len(),
            rest@ == all.skip(i as int),
            fresh@ == new_paths(all.take(i as int), devices@),
        decreases n - i,
    {
        let path = rest.remove(0);
        assert(path == all[i as int]);
        assert(rest@ =~= all.skip(i + 1));
        assert(all.take(i + 1).drop_last() =~= all.take(i as int));
        if !knows(devices, &path) {
            fresh.push(path);
        }
        i = i + 1;
    }
    assert(all.take(n as int) =~= all);
    fresh
}

impl<D> Listen<D> {
    /// The listener and what it is setting up keep to what they say of themselves.
    pub open spec fn wf(self) -> bool {
        &&& self@.wf()
        &&& self.setup.wf()
    }

    /// A listener that waits for the entries of the directory of input devices.
    pub fn new() -> (r: Self)
        ensures
            r.wf(),
            r@ == ListenView::<D>::fresh(),
    {
        Listen {
            phase: ListenPhase::Setup,
            setup: CaptureSetup::new(),
            devices: Vec::new(),
            last_scan: 0,
            ready: Vec::new(),
            disconnected: Vec::new(),
            batch: Vec::new(),
            paths: Vec::new(),
        }
    }

    fn give_up<C>(&mut self, message: String) -> (r: ListenAction<C, D>)
        requires
            old(self).wf(),
        ensures
            final(self).wf(),
            (final(self)@, r@) == old(self)@.returned::<C>(Err(message@)),
    {
        self.phase = ListenPhase::Finished;
        ListenAction::Return(Err(message))
    }

    fn at_stop_check<C>(&mut self) -> (r: ListenAction<C, D>)
        requires
            old(self).wf(),
            !old(self)@.reading(),
            old(self).phase != ListenPhase::Finished,
            old(self).paths.len() == 0,
        ensures
            final(self).wf(),
            (final(self)@, r@) == old(self)@.at_stop_check::<C>(),
    {
        self.phase = ListenPhase::StopCheck;
        ListenAction::CheckStop
    }

    fn at_next_device<C>(&mut self) -> (r: ListenAction<C, D>)
        requires
            old(self).setup.wf(),
            old(self).phase != ListenPhase::Setup,
            old(self).paths.len() == 0,
            poll::ascending_below(old(self).ready@, old(self).devices.len() as int),
            poll::ascending_below(old(self).disconnected@, old(self).devices.len() as int),
        ensures
            final(self).wf(),
            (final(self)@, r@) == old(self)@.at_next_device::<C>(),
    {
        if self.ready.len() > 0 {
            self.phase = ListenPhase::Fetching;
            ListenAction::Fetch(self.ready[0])
        } else {
            self.phase = ListenPhase::ScanClock;
            remove_gone(&mut self.devices, &self.disconnected);
            self.disconnected = Vec::new();
            ListenAction::ReadClock
        }
    }

    fn at_next_event<C>(&mut self) -> (r: ListenAction<C, D>)
        requires
            old(self).setup.wf(),
            old(self)@.reading(),
            old(self).paths.len() == 0,
            old(self).ready.len() > 0,
            poll::ascending_below(old(self).ready@, old(self).devices.len() as int),
            poll::ascending_below(old(self).disconnected@, old(self).devices.len() as int),
        ensures
            final(self).wf(),
            (final(self)@, r@) == old(self)@.at_next_event::<C>(),
    {
        if self.batch.len() > 0 {
            self.phase = ListenPhase::EventStopCheck;
            ListenAction::CheckStop
        } else {
            let _ = self.ready.remove(0);
            self.at_next_device()
        }
    }

    fn at_next_path<C>(&mut self) -> (r: ListenAction<C, D>)
        requires
            old(self).setup.wf(),
            old(self).ready.len() == 0,
            old(self).disconnected.len() == 0,
        ensures
            final(self).wf(),
            (final(self)@, r@) == old(self)@.at_next_path::<C>(),
    {
        if self.paths.len() > 0 {
            self.phase = ListenPhase::Opening;
            ListenAction::Open
        } else {
            self.phase = ListenPhase::ResetClock;
            ListenAction::ReadClock
        }
    }

    fn after_setup<C>(&mut self, reply: SetupReply<D>) -> (r: ListenAction<C, D>)
        requires
            old(self).wf(),
            old(self).phase == ListenPhase::Setup,
            old(self).setup@.accepts(reply),
        ensures
            final(self).wf(),
            (final(self)@, r@) == old(self)@.after_setup::<C>(reply),
    {
        match preflight_capture(&mut self.setup, reply) {
            SetupAction::Return(Ok(())) => {
                self.phase = ListenPhase::StartClock;
                self.devices = Vec::new();
                std::mem::swap(&mut self.devices, &mut self.setup.scan.devices);
                ListenAction::ReadClock
            },
            SetupAction::Return(Err(message)) => {
                self.phase = ListenPhase::Finished;
                ListenAction::Return(Err(message))
            },
            action => ListenAction::Setup(action),
        }
    }

    fn after_clock<C>(&mut self, now: u64) -> (r: ListenAction<C, D>)
        requires
            old(self).wf(),
            old(self)@.accepts(ListenReply::<C, D>::Clock(now)),
        ensures
            final(self).wf(),
            (final(self)@, r@) == old(self)@.after_clock::<C>(now),
    {
        if self.phase != ListenPhase::ScanClock {
            self.last_scan = now;
            self.at_stop_check()
        } else if now >= self.last_scan && now - self.last_scan >= SCAN_INTERVAL {
            self.phase = ListenPhase::Enumerating;
            ListenAction::Enumerate
        } else {
            self.at_stop_check()
        }
    }

    fn after_event<C>(&mut self) -> (r: ListenAction<C, D>)
        requires
            old(self).wf(),
            old(self).phase == ListenPhase::EventStopCheck,
        ensures
            final(self).wf(),
            (final(self)@, r@) == old(self)@.after_event::<C>(),
    {
        match interpret::<C>(self.batch[0]) {
            Meaning::Nothing => {
                let _ = self.batch.remove(0);
                self.at_next_event()
            },
            Meaning::Event(event_type) => {
                self.phase = ListenPhase::Delivering;
                ListenAction::Deliver(Event { event_type, name: None })
            },
            Meaning::PointerMoved => {
                self.phase = ListenPhase::Locating;
                ListenAction::Locate
            },
        }
    }

    fn after_fetch<C>(&mut self, outcome: FetchOutcome) -> (r: ListenAction<C, D>)
        requires
            old(self).wf(),
            old(self).phase == ListenPhase::Fetching,
        ensures
            final(self).wf(),
            (final(self)@, r@) == old(self)@.step(ListenReply::<C, D>::Fetched(outcome)),
    {
        match outcome {
            FetchOutcome::Events(events) => {
                self.batch = events;
                self.at_next_event()
            },
            FetchOutcome::WouldBlock => {
                self.batch = Vec::new();
                self.at_next_event()
            },
            FetchOutcome::Failed(e) => {
                let message = join4(
                    "Input device ",
                    self.devices[self.ready[0]].path.display.as_str(),
                    " failed: ",
                    e.as_str(),
                );
                self.give_up(message)
            },
        }
    }

    fn after_open<C>(&mut self, opened: Result<(D, bool), String>) -> (r: ListenAction<C, D>)
        requires
            old(self).wf(),
            old(self).phase == ListenPhase::Opening,
        ensures
            final(self).wf(),
            (final(self)@, r@) == old(self)@.step(ListenReply::<C, D>::Opened(opened)),
    {
        match opened {
            Ok((device, relevant)) => {
                if relevant {
                    self.phase = ListenPhase::Configuring;
                    ListenAction::Configure(device)
                } else {
                    let _ = self.paths.remove(0);
                    self.at_next_path()
                }
            },
            Err(e) => {
                let message = join4(
                    "Cannot open new input device ",
                    self.paths[0].display.as_str(),
                    ": ",
                    e.as_str(),
                );
                self.give_up(message)
            },
        }
    }

    fn after_configure<C>(&mut self, device: D, outcome: Result<(), String>) -> (r: ListenAction<
        C,
        D,
    >)
        requires
            old(self).wf(),
            old(self).phase == ListenPhase::Configuring,
        ensures
            final(self).wf(),
            (final(self)@, r@) == old(self)@.step(
                ListenReply::<C, D>::Configured { device, outcome },
            ),
    {
        match outcome {
            Ok(()) => {
                let path = self.paths.remove(0);
                self.devices.push(OpenDevice { path, device });
                self.at_next_path()
            },
            Err(e) => {
                let message = join4(
                    "Cannot configure ",
                    self.paths[0].display.as_str(),
                    ": ",
                    e.as_str(),
                );
                self.give_up(message)
            },
        }
    }
}

/// Takes a listener one step further.
///
/// It opens all that capture needs and goes on, round by round, until it is told to
/// stop or something fails: the devices are polled; the events of those that have any are
/// handed to the callback one by one; devices that are gone are forgotten; and once in a
/// while devices that have appeared are opened.
pub fn listen<C, D>(listener: &mut Listen<D>, reply: ListenReply<C, D>) -> (r: ListenAction<C, D>)
    requires
        old(listener).wf(),
        old(listener)@.accepts(reply),
    ensures
        final(listener).wf(),
        (final(listener)@, r@) == old(listener)@.step(reply),
{
    match reply {
        ListenReply::Setup(r) => listener.after_setup(r),
        ListenReply::Clock(now) => listener.after_clock(now),
        ListenReply::Stop(stop) => {
            if stop {
                listener.phase = ListenPhase::Finished;
                ListenAction::Return(Ok(()))
            } else if listener.phase == ListenPhase::StopCheck {
                listener.phase = ListenPhase::Polling;
                ListenAction::Poll(POLL_TIMEOUT)
            } else {
                listener.after_event()
            }
        },
        ListenReply::Polled(Ok(revents)) => {
            proof {
                poll::polled_indices_are_exact(revents@);
            }
            let (ready, disconnected) = poll_results(&revents);
            listener.ready = ready;
            listener.disconnected = disconnected;
            listener.at_next_device()
        },
        ListenReply::Polled(Err(e)) => listener.give_up(join("Input poll failed: ", e.as_str())),
        ListenReply::Fetched(outcome) => listener.after_fetch(outcome),
        ListenReply::Located(Ok((x, y))) => {
            listener.phase = ListenPhase::Delivering;
            ListenAction::Deliver(Event { event_type: EventType::MouseMove { x, y }, name: None })
        },
        ListenReply::Located(Err(e)) => listener.give_up(
            join("Cannot query pointer location: ", e.as_str()),
        ),
        ListenReply::Delivered => {
            let _ = listener.batch.remove(0);
            listener.at_next_event()
        },
        ListenReply::Entries(Ok(entries)) => {
            let paths = device_paths(entries);
            listener.paths = keep_new(paths, &listener.devices);
            listener.at_next_path()
        },
        ListenReply::Entries(Err(e)) => listener.give_up(
            join("Cannot enumerate /dev/input: ", e.as_str()),
        ),
        ListenReply::Opened(opened) => listener.after_open(opened),
        ListenReply::Configured { device, outcome } => listener.after_configure(device, outcome),
    }
}

} // verus!
