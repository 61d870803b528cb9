//! Opening the devices that are listened to.

use super::devices;
use super::devices::{device_paths, DevicePath};
use crate::text;
use crate::text::{join, join3, join4, to_decimal};
use vstd::prelude::*;

verus! {

/// A device that has been opened, with the handle `D`.
pub struct OpenDevice<D> {
    pub path: DevicePath,
    pub device: D,
}

/// What a scan for devices waits for.
#[derive(Clone, Copy, Debug, PartialEq, Eq, Structural)]
pub enum ScanPhase {
    Enumerating,
    Opening,
    Configuring,
    Finished,
}

/// A scan for devices: `paths` are still to be opened, the first of them now; `devices`
/// have been; `denied` counts those that may not be read.
pub struct DeviceScan<D> {
    pub phase: ScanPhase,
    pub paths: Vec<DevicePath>,
    pub devices: Vec<OpenDevice<D>>,
    pub denied: usize,
}

/// How opening a device ended.
pub enum OpenOutcome<D> {
    Opened { device: D, relevant: bool },
    Denied,
    Failed(String),
}

/// How what a scan waited for has ended.
pub enum ScanReply<D> {
    Entries(Result<Vec<DevicePath>, String>),
    Opened(OpenOutcome<D>),
    Configured { device: D, outcome: Result<(), String> },
}

/// What is to be done next for a scan.
pub enum ScanAction<D> {
    /// Open the first of the scan's paths.
    Open,
    /// Make the device return at once where it has no events.
    Configure(D),
    /// Return the result; the devices are in the scan.
    Return(Result<(), String>),
}

pub struct ScanView<D> {
    pub phase: ScanPhase,
    pub paths: Seq<DevicePath>,
    pub devices: Seq<OpenDevice<D>>,
    pub denied: nat,
}

pub enum ScanActionView<D> {
    Open,
    Configure(D),
    Return(Result<(), Seq<char>>),
}

impl<D> View for DeviceScan<D> {
    type V = ScanView<D>;

    open spec fn view(&self) -> ScanView<D> {
        ScanView {
            phase: self.phase,
            paths: self.paths@,
            devices: self.devices@,
            denied: self.denied as nat,
        }
    }
}

impl<D> View for ScanAction<D> {
    type V = ScanActionView<D>;

    open spec fn view(&self) -> ScanActionView<D> {
        match *self {
            ScanAction::Open => ScanActionView::Open,
            ScanAction::Configure(device) => ScanActionView::Configure(device),
            ScanAction::Return(r) => ScanActionView::Return(text::told(r)),
        }
    }
}

/// The message for devices that may not be read.
pub open spec fn denied_message(denied: nat) -> Seq<char> {
    "Wayland global capture requires read access to /dev/input/event* ("@ + text::decimal(denied)
        + " denied). Configure a persistent input-device permission before starting the listener."@
}

impl<D> ScanView<D> {
    /// A scan that waits for the entries of the directory of input devices.
    pub open spec fn fresh() -> Self {
        ScanView {
            phase: ScanPhase::Enumerating,
            paths: Seq::empty(),
            devices: Seq::empty(),
            denied: 0,
        }
    }

    /// The scan waits for an answer of the kind that `reply` is.
    pub open spec fn accepts(self, reply: ScanReply<D>) -> bool {
        match reply {
            ScanReply::Entries(_) => self.phase == ScanPhase::Enumerating,
            ScanReply::Opened(_) => self.phase == ScanPhase::Opening,
            ScanReply::Configured { .. } => self.phase == ScanPhase::Configuring,
        }
    }

    /// Nothing has been opened or counted before the devices are known, and a path is at
    /// hand whenever a device is to be opened or configured.
    pub open spec fn wf(self) -> bool {
        match self.phase {
            ScanPhase::Enumerating => self.devices.len() == 0 && self.denied == 0,
            ScanPhase::Opening | ScanPhase::Configuring => self.paths.len() > 0,
            ScanPhase::Finished => true,
        }
    }

    /// The scan ends with a message.
    pub open spec fn failed(self, message: Seq<char>) -> (Self, ScanActionView<D>) {
        (
            ScanView { phase: ScanPhase::Finished, ..self },
            ScanActionView::Return(Err(message)),
        )
    }

    /// What a scan without paths comes to: devices that may not be read make it fail,
    /// even where others could be opened.
    pub open spec fn verdict(self) -> Result<(), Seq<char>> {
        if self.denied > 0 {
            Err(denied_message(self.denied))
        } else if self.devices.len() == 0 {
            Err("No keyboard or pointer input devices were found"@)
        } else {
            Ok(())
        }
    }

    /// The scan goes on with its first path, or ends where there is none.
    pub open spec fn at_next_path(self) -> (Self, ScanActionView<D>) {
        if self.paths.len() > 0 {
            (ScanView { phase: ScanPhase::Opening, ..self }, ScanActionView::Open)
        } else {
            (
                ScanView { phase: ScanPhase::Finished, ..self },
                ScanActionView::Return(self.verdict()),
            )
        }
    }

    /// The scan is through with its first path.
    pub open spec fn past_path(self) -> (Self, ScanActionView<D>) {
        ScanView { paths: self.paths.drop_first(), ..self }.at_next_path()
    }

    /// What comes of `reply`.
    pub open spec fn step(self, reply: ScanReply<D>) -> (Self, ScanActionView<D>) {
        match reply {
            ScanReply::Entries(Err(e)) => self.failed("Cannot enumerate /dev/input: "@ + e@),
            ScanReply::Entries(Ok(entries)) => {
                let paths = devices::event_paths(entries@);
                if paths.len() == 0 {
                    ScanView { paths, ..self }.failed("No /dev/input/event* devices were found"@)
                } else {
                    ScanView { paths, ..self }.at_next_path()
                }
            },
            ScanReply::Opened(OpenOutcome::Opened { device, relevant }) => if relevant {
                (
                    ScanView { phase: ScanPhase::Configuring, ..self },
                    ScanActionView::Configure(device),
                )
            } else {
                self.past_path()
            },
            ScanReply::Opened(OpenOutcome::Denied) => ScanView {
                denied: self.denied + 1,
                ..self
            }.past_path(),
            ScanReply::Opened(OpenOutcome::Failed(e)) => self.failed(
                "Cannot open "@ + self.paths[0].display@ + ": "@ + e@,
            ),
            ScanReply::Configured { device, outcome: Ok(()) } => ScanView {
                devices: self.devices.push(OpenDevice { path: self.paths[0], device }),
                ..self
            }.past_path(),
            ScanReply::Configured { device, outcome: Err(e) } => self.failed(
                "Cannot configure "@ + self.paths[0].display@ + ": "@ + e@,
            ),
        }
    }
}

impl<D> DeviceScan<D> {
    /// The scan keeps to what it says of itself, and has not counted more devices than
    /// there can be.
    pub open spec fn wf(self) -> bool {
        &&& self@.wf()
        &&& self.denied + self.paths.len() <= usize::MAX
    }

    /// A scan that waits for the entries of the directory of input devices.
    pub fn new() -> (r: Self)
        ensures
            r.wf(),
            r@ == ScanView::<D>::fresh(),
    {
        DeviceScan {
            phase: ScanPhase::Enumerating,
            paths: Vec::new(),
            devices: Vec::new(),
            denied: 0,
        }
    }

    fn at_next_path(&mut self) -> (r: ScanAction<D>)
        requires
            old(self).denied + old(self).paths.len() <= usize::MAX,
        ensures
            final(self).wf(),
            (final(self)@, r@) == old(self)@.at_next_path(),
    {
        if self.paths.len() > 0 {
            self.phase = ScanPhase::Opening;
            ScanAction::Open
        } else {
            self.phase = ScanPhase::Finished;
            if self.denied > 0 {
                ScanAction::Return(
                    Err(
                        join3(
                            "Wayland global capture requires read access to /dev/input/event* (",
                            to_decimal(self.denied as u64).as_str(),
                            " denied). Configure a persistent input-device permission before starting the listener.",
                        ),
                    ),
                )
            } else if self.devices.len() == 0 {
                ScanAction::Return(
                    Err("No keyboard or pointer input devices were found".to_owned()),
                )
            } else {
                ScanAction::Return(Ok(()))
            }
        }
    }

    fn fail(&mut self, message: String) -> (r: ScanAction<D>)
        requires
            old(self).wf(),
        ensures
            final(self).wf(),
            (final(self)@, r@) == old(self)@.failed(message@),
    {
        self.phase = ScanPhase::Finished;
        ScanAction::Return(Err(message))
    }
}

/// Takes a scan for keyboards and pointers one step further.
///
/// Each device is opened in turn. One that may not be read is counted and passed over;
/// any other failure ends the scan at once.
pub fn open_devices<D>(scan: &mut DeviceScan<D>, reply: ScanReply<D>) -> (r: ScanAction<D>)
    requires
        old(scan).wf(),
        old(scan)@.accepts(reply),
    ensures
        final(scan).wf(),
        (final(scan)@, r@) == old(scan)@.step(reply),
{
    match reply {
        ScanReply::Entries(Err(e)) => scan.fail(join("Cannot enumerate /dev/input: ", e.as_str())),
        ScanReply::Entries(Ok(entries)) => {
            scan.paths = device_paths(entries);
            if scan.paths.len() == 0 {
                scan.fail("No /dev/input/event* devices were found".to_owned())
            } else {
                scan.at_next_path()
            }
        },
        ScanReply::Opened(OpenOutcome::Opened { device, relevant }) => {
            if relevant {
                scan.phase = ScanPhase::Configuring;
                ScanAction::Configure(device)
            } else {
                let _ = scan.paths.remove(0);
                scan.at_next_path()
            }
        },
        ScanReply::Opened(OpenOutcome::Denied) => {
            let _ = scan.paths.remove(0);
            scan.denied = scan.denied + 1;
            scan.at_next_path()
        },
        ScanReply::Opened(OpenOutcome::Failed(e)) => {
            let message = join4("Cannot open ", scan.paths[0].display.as_str(), ": ", e.as_str());
            scan.fail(message)
        },
        ScanReply::Configured { device, outcome: Ok(()) } => {
            let path = scan.paths.remove(0);
            scan.devices.push(OpenDevice { path, device });
            scan.at_next_path()
        },
        ScanReply::Configured { device, outcome: Err(e) } => {
            let message = join4(
                "Cannot configure ",
                scan.paths[0].display.as_str(),
                ": ",
                e.as_str(),
            );
            scan.fail(message)
        },
    }
}

/// How one device fares in a scan.
pub enum Attempt<D> {
    /// It is opened and configured.
    Ready(D),
    /// It is opened, and neither a keyboard nor a pointer.
    Irrelevant(D),
    /// It may not be read.
    Denied,
    /// It cannot be opened.
    Unopened(String),
    /// It is opened, and cannot be configured.
    Unconfigured(D, String),
}

impl<D> Attempt<D> {
    /// The attempt ends the scan.
    pub open spec fn is_fatal(self) -> bool {
        self is Unopened || self is Unconfigured
    }
}

impl<D> ScanView<D> {
    /// What comes of an attempt at the first path.
    pub open spec fn attempted(self, attempt: Attempt<D>) -> (Self, ScanActionView<D>) {
        match attempt {
            Attempt::Ready(device) => self.step(
                ScanReply::Opened(OpenOutcome::Opened { device, relevant: true }),
            ).0.step(ScanReply::Configured { device, outcome: Ok(()) }),
            Attempt::Irrelevant(device) => self.step(
                ScanReply::Opened(OpenOutcome::Opened { device, relevant: false }),
            ),
            Attempt::Denied => self.step(ScanReply::Opened(OpenOutcome::Denied)),
            Attempt::Unopened(e) => self.step(ScanReply::Opened(OpenOutcome::Failed(e))),
            Attempt::Unconfigured(device, e) => self.step(
                ScanReply::Opened(OpenOutcome::Opened { device, relevant: true }),
            ).0.step(ScanReply::Configured { device, outcome: Err(e) }),
        }
    }

    /// What comes of one attempt after the other.
    pub open spec fn run(self, attempts: Seq<Attempt<D>>) -> (Self, ScanActionView<D>)
        recommends
            attempts.len() > 0,
        decreases attempts.len(),
    {
        if attempts.len() <= 1 {
            self.attempted(attempts[0])
        } else {
            self.attempted(attempts[0]).0.run(attempts.drop_first())
        }
    }
}

/// The devices that are ready after `attempts` at `paths`, in the order of the paths.
pub open spec fn ready_devices<D>(paths: Seq<DevicePath>, attempts: Seq<Attempt<D>>) -> Seq<
    OpenDevice<D>,
>
    decreases attempts.len(),
{
    if attempts.len() == 0 {
        Seq::empty()
    } else {
        let rest = ready_devices(paths.drop_first(), attempts.drop_first());
        match attempts[0] {
            Attempt::Ready(device) => seq![OpenDevice { path: paths[0], device }] + rest,
            _ => rest,
        }
    }
}

/// How many of `attempts` were denied.
pub open spec fn denials<D>(attempts: Seq<Attempt<D>>) -> nat
    decreases attempts.len(),
{
    if attempts.len() == 0 {
        0
    } else {
        denials(attempts.drop_first()) + if attempts[0] is Denied {
            1nat
        } else {
            0nat
        }
    }
}

/// A scan in which no attempt is fatal finds the devices that are ready, in the order of
/// their paths, and succeeds if and only if there are any and none was denied. The
/// message of a scan that was denied devices counts them, whatever else was found.
pub proof fn scan_finds_the_ready_devices<D>(scan: ScanView<D>, attempts: Seq<Attempt<D>>)
    requires
        scan.phase == ScanPhase::Opening,
        scan.paths.len() > 0,
        attempts.len() == scan.paths.len(),
        forall|i: int| 0 <= i < attempts.len() ==> !(#[trigger] attempts[i]).is_fatal(),
    ensures
        ({
            let (end, action) = scan.run(attempts);
            let found = scan.devices + ready_devices(scan.paths, attempts);
            let denied = scan.denied + denials(attempts);
            &&& end.phase == ScanPhase::Finished
            &&& end.devices == found
            &&& action == ScanActionView::<D>::Return(
                if denied > 0 {
                    Err(denied_message(denied))
                } else if found.len() == 0 {
                    Err("No keyboard or pointer input devices were found"@)
                } else {
                    Ok(())
                },
            )
        }),
    decreases attempts.len(),
{
    let rest = attempts.drop_first();
    let paths = scan.paths.drop_first();
    let next = scan.attempted(attempts[0]).0;
    assert(!attempts[0].is_fatal());
    let found = scan.devices + ready_devices(scan.paths, attempts);
    if attempts.len() == 1 {
        assert(ready_devices(paths, rest) =~= Seq::empty());
        assert(denials(rest) == 0);
        assert(next.devices =~= found);
    } else {
        assert forall|i: int| 0 <= i < rest.len() implies !(#[trigger] rest[i]).is_fatal() by {
            assert(rest[i] == attempts[i + 1]);
        }
        scan_finds_the_ready_devices(next, rest);
        assert(next.devices + ready_devices(paths, rest) =~= found);
    }
}

/// The first fatal attempt ends a scan: it returns the message of that attempt, and the
/// devices after it are not tried.
pub proof fn scan_ends_with_the_first_failure<D>(scan: ScanView<D>, attempts: Seq<Attempt<D>>)
    requires
        scan.phase == ScanPhase::Opening,
        0 < attempts.len() <= scan.paths.len(),
        forall|i: int| 0 <= i < attempts.len() - 1 ==> !(#[trigger] attempts[i]).is_fatal(),
        attempts.last().is_fatal(),
    ensures
        ({
            let (end, action) = scan.run(attempts);
            let path = scan.paths[attempts.len() - 1].display@;
            &&& end.phase == ScanPhase::Finished
            &&& action == ScanActionView::<D>::Return(
                Err(
                    match attempts.last() {
                        Attempt::Unopened(e) => "Cannot open "@ + path + ": "@ + e@,
                        Attempt::Unconfigured(_, e) => "Cannot configure "@ + path + ": "@ + e@,
                        _ => Seq::empty(),
                    },
                ),
            )
        }),
    decreases attempts.len(),
{
    if attempts.len() > 1 {
        let rest = attempts.drop_first();
        assert(!attempts[0].is_fatal());
        assert forall|i: int| 0 <= i < rest.len() - 1 implies !(
        #[trigger] rest[i]).is_fatal() by {
            assert(rest[i] == attempts[i + 1]);
        }
        assert(rest.last() == attempts.last());
        let next = scan.attempted(attempts[0]).0;
        assert(next.paths == scan.paths.drop_first());
        scan_ends_with_the_first_failure(next, rest);
    }
}

/// What opening the devices and the connection to the pointer waits for.
#[derive(Clone, Copy, Debug, PartialEq, Eq, Structural)]
pub enum SetupPhase {
    Devices,
    Pointer,
    Finished,
}

/// Opening all that capture needs: first the devices, then the connection that tells
/// where the pointer is.
pub struct CaptureSetup<D> {
    pub phase: SetupPhase,
    pub scan: DeviceScan<D>,
}

/// How what a setup waited for has ended.
pub enum SetupReply<D> {
    Scan(ScanReply<D>),
    Pointer(Result<(), String>),
}

/// What is to be done next for a setup.
pub enum SetupAction<D> {
    /// Open the first of the scan's paths.
    Open,
    /// Make the device return at once where it has no events.
    Configure(D),
    /// Open the connection that tells where the pointer is.
    OpenPointer,
    /// Return the result; the devices are in the scan.
    Return(Result<(), String>),
}

pub struct SetupView<D> {
    pub phase: SetupPhase,
    pub scan: ScanView<D>,
}

pub enum SetupActionView<D> {
    Open,
    Configure(D),
    OpenPointer,
    Return(Result<(), Seq<char>>),
}

impl<D> View for CaptureSetup<D> {
    type V = SetupView<D>;

    open spec fn view(&self) -> SetupView<D> {
        SetupView { phase: self.phase, scan: self.scan@ }
    }
}

impl<D> View for SetupAction<D> {
    type V = SetupActionView<D>;

    open spec fn view(&self) -> SetupActionView<D> {
        match *self {
            SetupAction::Open => SetupActionView::Open,
            SetupAction::Configure(device) => SetupActionView::Configure(device),
            SetupAction::OpenPointer => SetupActionView::OpenPointer,
            SetupAction::Return(r) => SetupActionView::Return(text::told(r)),
        }
    }
}

/// The message for a connection to the pointer that cannot be opened.
pub open spec fn pointer_message(e: Seq<char>) -> Seq<char> {
    "Cannot connect to XWayland for absolute pointer coordinates: "@ + e
}

impl<D> SetupView<D> {
    /// A setup that waits for the entries of the directory of input devices.
    pub open spec fn fresh() -> Self {
        SetupView { phase: SetupPhase::Devices, scan: ScanView::fresh() }
    }

    /// The setup waits for an answer of the kind that `reply` is.
    pub open spec fn accepts(self, reply: SetupReply<D>) -> bool {
        match reply {
            SetupReply::Scan(r) => self.phase == SetupPhase::Devices && self.scan.accepts(r),
            SetupReply::Pointer(_) => self.phase == SetupPhase::Pointer,
        }
    }

    /// The setup keeps to its order.
    pub open spec fn wf(self) -> bool {
        &&& self.scan.wf()
        &&& self.phase == SetupPhase::Pointer ==> {
            &&& self.scan.phase == ScanPhase::Finished
            &&& self.scan.verdict() is Ok
        }
    }

    /// What comes of `reply`: the connection is opened once all devices have been, and
    /// only if that succeeded.
    pub open spec fn step(self, reply: SetupReply<D>) -> (Self, SetupActionView<D>) {
        match reply {
            SetupReply::Scan(r) => {
                let (scan, action) = self.scan.step(r);
                match action {
                    ScanActionView::Open => (SetupView { scan, ..self }, SetupActionView::Open),
                    ScanActionView::Configure(device) => (
                        SetupView { scan, ..self },
                        SetupActionView::Configure(device),
                    ),
                    ScanActionView::Return(Ok(())) => (
                        SetupView { phase: SetupPhase::Pointer, scan },
                        SetupActionView::OpenPointer,
                    ),
                    ScanActionView::Return(Err(message)) => (
                        SetupView { phase: SetupPhase::Finished, scan },
                        SetupActionView::Return(Err(message)),
                    ),
                }
            },
            SetupReply::Pointer(r) => (
                SetupView { phase: SetupPhase::Finished, ..self },
                SetupActionView::Return(
                    match r {
                        Ok(()) => Ok(()),
                        Err(e) => Err(pointer_message(e@)),
                    },
                ),
            ),
        }
    }
}

impl<D> CaptureSetup<D> {
    pub open spec fn wf(self) -> bool {
        &&& self@.wf()
        &&& self.scan.wf()
    }

    /// A setup that waits for the entries of the directory of input devices.
    pub fn new() -> (r: Self)
        ensures
            r.wf(),
            r@ == SetupView::<D>::fresh(),
    {
        CaptureSetup { phase: SetupPhase::Devices, scan: DeviceScan::new() }
    }
}

/// Takes opening all that capture needs one step further. Nothing is captured: a setup
/// that succeeds tells that capture can start.
pub fn preflight_capture<D>(setup: &mut CaptureSetup<D>, reply: SetupReply<D>) -> (r: SetupAction<
    D,
>)
    requires
        old(setup).wf(),
        old(setup)@.accepts(reply),
    ensures
        final(setup).wf(),
        (final(setup)@, r@) == old(setup)@.step(reply),
{
    match reply {
        SetupReply::Scan(r) => match open_devices(&mut setup.scan, r) {
            ScanAction::Open => SetupAction::Open,
            ScanAction::Configure(device) => SetupAction::Configure(device),
            ScanAction::Return(Ok(())) => {
                setup.phase = SetupPhase::Pointer;
                SetupAction::OpenPointer
            },
            ScanAction::Return(Err(message)) => {
                setup.phase = SetupPhase::Finished;
                SetupAction::Return(Err(message))
            },
        },
        SetupReply::Pointer(r) => {
            setup.phase = SetupPhase::Finished;
            match r {
                Ok(()) => SetupAction::Return(Ok(())),
                Err(e) => SetupAction::Return(
                    Err(
                        join(
                            "Cannot connect to XWayland for absolute pointer coordinates: ",
                            e.as_str(),
                        ),
                    ),
                ),
            }
        },
    }
}

/// A setup succeeds only where the devices could be opened and the connection to the
/// pointer as well; and once the devices are open, the connection alone decides.
pub proof fn setup_needs_devices_and_pointer<D>(setup: SetupView<D>, reply: SetupReply<D>)
    requires
        setup.wf(),
        setup.accepts(reply),
    ensures
        setup.step(reply).1 == SetupActionView::<D>::Return(Ok(())) <==> reply matches
            SetupReply::Pointer(Ok(())),
        reply is Pointer ==> setup.scan.verdict() is Ok,
        setup.step(reply).1 is OpenPointer ==> setup.step(reply).0.scan.verdict() is Ok,
{
}

} // verus!
