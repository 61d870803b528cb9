//! Simulating input through a virtual device.

use super::attributes;
use super::attributes::{insert_axis, insert_key, no_axes, no_keys, AxisSet, KeySet};
use super::capture;
use super::codes::{
    RawEvent, BTN_LEFT, BTN_MIDDLE, BTN_RIGHT, EV_KEY, EV_REL, REL_HWHEEL, REL_WHEEL, REL_X, REL_Y,
};
use super::keymap;
use super::keymap::{supported_keys, to_evdev};
use crate::events::{Button, EventType};
use crate::text;
use crate::text::join;
use vstd::prelude::*;

verus! {

/// The name of the virtual device.
pub const VIRTUAL_DEVICE_NAME: &'static str = "rdev-node virtual input";

/// The virtual device can report the key or button `code`.
pub open spec fn is_simulated_key(code: u16) -> bool {
    keymap::is_named(code) || code == BTN_LEFT || code == BTN_RIGHT || code == BTN_MIDDLE
}

/// The codes of all keys and buttons that the virtual device can report.
pub open spec fn simulated_keys() -> Set<u16> {
    Set::new(|code: u16| is_simulated_key(code))
}

/// The keys and buttons that the virtual device can report: all named keys, and the three
/// named buttons.
pub fn virtual_keys() -> (r: KeySet)
    ensures
        attributes::held_keys(r) == simulated_keys(),
{
    let codes = supported_keys();
    let mut keys = no_keys();
    let mut i: usize = 0;
    while i < codes.len()
        invariant
            i <= codes.len(),
            forall|code: u16| #[trigger] codes@.contains(code) <==> keymap::is_named(code),
            forall|code: u16| #[trigger]
                attributes::held_keys(keys).contains(code) <==> codes@.take(i as int).contains(
                    code,
                ),
        decreases codes.len() - i,
    {
        let code = codes[i];
        assert(codes@.contains(code));
        assert(code < attributes::KEY_ROOM);
        insert_key(&mut keys, code);
        assert forall|c: u16| #[trigger]
            attributes::held_keys(keys).contains(c) <==> codes@.take(i + 1).contains(c) by {
            lemma_take_contains(codes@, i as int, c);
        }
        i = i + 1;
    }
    assert(codes@.take(codes.len() as int) =~= codes@);
    insert_key(&mut keys, BTN_LEFT);
    insert_key(&mut keys, BTN_RIGHT);
    insert_key(&mut keys, BTN_MIDDLE);
    assert(attributes::held_keys(keys) =~= simulated_keys());
    keys
}

proof fn lemma_take_contains(codes: Seq<u16>, i: int, c: u16)
    requires
        0 <= i < codes.len(),
    ensures
        codes.take(i + 1).contains(c) <==> codes.take(i).contains(c) || c == codes[i],
{
    let more = codes.take(i + 1);
    assert(more[i] == codes[i]);
    if codes.take(i).contains(c) {
        let k = codes.take(i).index_of(c);
        assert(more[k] == c);
    }
    if more.contains(c) {
        let k = more.index_of(c);
        if k < i {
            assert(codes.take(i)[k] == c);
        }
    }
}

/// The virtual device can report motion along the axis `code`.
pub open spec fn is_simulated_axis(code: u16) -> bool {
    code == REL_X || code == REL_Y || code == REL_WHEEL || code == REL_HWHEEL
}

/// The codes of all axes that the virtual device can report.
pub open spec fn simulated_axes() -> Set<u16> {
    Set::new(|code: u16| is_simulated_axis(code))
}

/// The axes that the virtual device can report: those of the pointer and of both wheels.
pub fn virtual_axes() -> (r: AxisSet)
    ensures
        attributes::held_axes(r) == simulated_axes(),
{
    let mut axes = no_axes();
    insert_axis(&mut axes, REL_X);
    insert_axis(&mut axes, REL_Y);
    insert_axis(&mut axes, REL_WHEEL);
    insert_axis(&mut axes, REL_HWHEEL);
    assert(attributes::held_axes(axes) =~= simulated_axes());
    axes
}

/// What making the virtual device waits for.
#[derive(Clone, Copy, Debug, PartialEq, Eq, Structural)]
pub enum BuildStep {
    /// The device file, opened.
    Opening,
    /// The device, with its name and its keys.
    AddingKeys,
    /// The device, with its axes.
    AddingAxes,
    /// The device, created.
    Creating,
    /// Nothing: it has returned.
    Finished,
}

/// How a step has ended: `B` is the handle of the device while it is being made, `D` that
/// of the device.
pub enum BuildReply<B, D> {
    Builder(Result<B, String>),
    Device(Result<D, String>),
}

/// What is to be done next to make the virtual device.
pub enum BuildAction<B, D> {
    /// Give the device its name and its keys.
    AddKeys { builder: B, name: &'static str, keys: KeySet },
    /// Give the device its axes.
    AddAxes { builder: B, axes: AxisSet },
    /// Create the device.
    Create(B),
    /// Return the result.
    Return(Result<D, String>),
}

pub enum BuildActionView<B, D> {
    AddKeys { builder: B, name: Seq<char>, keys: Set<u16> },
    AddAxes { builder: B, axes: Set<u16> },
    Create(B),
    Return(Result<D, Seq<char>>),
}

impl<B, D> View for BuildAction<B, D> {
    type V = BuildActionView<B, D>;

    open spec fn view(&self) -> BuildActionView<B, D> {
        match *self {
            BuildAction::AddKeys { builder, name, keys } => BuildActionView::AddKeys {
                builder,
                name: name@,
                keys: attributes::held_keys(keys),
            },
            BuildAction::AddAxes { builder, axes } => BuildActionView::AddAxes {
                builder,
                axes: attributes::held_axes(axes),
            },
            BuildAction::Create(builder) => BuildActionView::Create(builder),
            BuildAction::Return(Ok(device)) => BuildActionView::Return(Ok(device)),
            BuildAction::Return(Err(message)) => BuildActionView::Return(Err(message@)),
        }
    }
}

/// The message for a virtual device that cannot be made, because `step` failed.
pub open spec fn build_message(step: BuildStep, e: Seq<char>) -> Seq<char> {
    match step {
        BuildStep::Opening => "Cannot open /dev/uinput: "@ + e,
        BuildStep::AddingKeys => "Cannot configure virtual keys: "@ + e,
        BuildStep::AddingAxes => "Cannot configure virtual pointer: "@ + e,
        _ => "Cannot create virtual input device: "@ + e,
    }
}

impl BuildStep {
    /// The step waits for an answer of the kind that `reply` is.
    pub open spec fn accepts<B, D>(self, reply: BuildReply<B, D>) -> bool {
        match reply {
            BuildReply::Builder(_) => self == BuildStep::Opening || self == BuildStep::AddingKeys
                || self == BuildStep::AddingAxes,
            BuildReply::Device(_) => self == BuildStep::Creating,
        }
    }

    /// What comes of `reply`: the device is given its name and its keys, then its axes, and
    /// is created; the first step that fails ends it.
    pub open spec fn step<B, D>(self, reply: BuildReply<B, D>) -> (Self, BuildActionView<B, D>) {
        match reply {
            BuildReply::Builder(Ok(builder)) => match self {
                BuildStep::Opening => (
                    BuildStep::AddingKeys,
                    BuildActionView::AddKeys {
                        builder,
                        name: VIRTUAL_DEVICE_NAME@,
                        keys: simulated_keys(),
                    },
                ),
                BuildStep::AddingKeys => (
                    BuildStep::AddingAxes,
                    BuildActionView::AddAxes { builder, axes: simulated_axes() },
                ),
                _ => (BuildStep::Creating, BuildActionView::Create(builder)),
            },
            BuildReply::Device(Ok(device)) => (
                BuildStep::Finished,
                BuildActionView::Return(Ok(device)),
            ),
            BuildReply::Builder(Err(e)) | BuildReply::Device(Err(e)) => (
                BuildStep::Finished,
                BuildActionView::Return(Err(build_message(self, e@))),
            ),
        }
    }
}

/// Takes making the virtual device one step further.
pub fn create_virtual_device<B, D>(step: &mut BuildStep, reply: BuildReply<B, D>) -> (r:
    BuildAction<B, D>)
    requires
        old(step).accepts(reply),
    ensures
        (*final(step), r@) == old(step).step(reply),
{
    match reply {
        BuildReply::Builder(Ok(builder)) => match *step {
            BuildStep::Opening => {
                *step = BuildStep::AddingKeys;
                BuildAction::AddKeys { builder, name: VIRTUAL_DEVICE_NAME, keys: virtual_keys() }
            },
            BuildStep::AddingKeys => {
                *step = BuildStep::AddingAxes;
                BuildAction::AddAxes { builder, axes: virtual_axes() }
            },
            _ => {
                *step = BuildStep::Creating;
                BuildAction::Create(builder)
            },
        },
        BuildReply::Device(Ok(device)) => {
            *step = BuildStep::Finished;
            BuildAction::Return(Ok(device))
        },
        BuildReply::Builder(Err(e)) | BuildReply::Device(Err(e)) => {
            let context: &str = match *step {
                BuildStep::Opening => "Cannot open /dev/uinput: ",
                BuildStep::AddingKeys => "Cannot configure virtual keys: ",
                BuildStep::AddingAxes => "Cannot configure virtual pointer: ",
                _ => "Cannot create virtual input device: ",
            };
            *step = BuildStep::Finished;
            BuildAction::Return(Err(join(context, e.as_str())))
        },
    }
}

/// A device whose steps all succeed is the device that is returned: on the way it has been
/// given its name and exactly the keys that can be simulated, then exactly the axes, each
/// once and in this order, and has been created last.
pub proof fn the_virtual_device_has_its_keys_and_axes<B, D>(
    opened: B,
    keyed: B,
    complete: B,
    device: D,
)
    ensures
        ({
            let (keys, first) = BuildStep::Opening.step(BuildReply::<B, D>::Builder(Ok(opened)));
            let (axes, second) = keys.step(BuildReply::<B, D>::Builder(Ok(keyed)));
            let (creation, third) = axes.step(BuildReply::<B, D>::Builder(Ok(complete)));
            let (end, last) = creation.step(BuildReply::<B, D>::Device(Ok(device)));
            &&& first == BuildActionView::<B, D>::AddKeys {
                builder: opened,
                name: "rdev-node virtual input"@,
                keys: simulated_keys(),
            }
            &&& second == BuildActionView::<B, D>::AddAxes {
                builder: keyed,
                axes: simulated_axes(),
            }
            &&& third == BuildActionView::<B, D>::Create(complete)
            &&& last == BuildActionView::<B, D>::Return(Ok(device))
            &&& end == BuildStep::Finished
        }),
{
}

/// A step that fails ends the making of the device, with the message of that step.
pub proof fn a_device_that_cannot_be_made_says_why<B, D>(step: BuildStep, e: String)
    requires
        step != BuildStep::Finished,
    ensures
        ({
            let reply = if step == BuildStep::Creating {
                BuildReply::<B, D>::Device(Err(e))
            } else {
                BuildReply::<B, D>::Builder(Err(e))
            };
            &&& step.accepts(reply)
            &&& step.step(reply) == (
                BuildStep::Finished,
                BuildActionView::<B, D>::Return(Err(build_message(step, e@))),
            )
        }),
{
}

/// What becomes of the slot for the virtual device when one has been made or could not
/// be: a device that is there stays.
pub open spec fn slot_after<D>(slot: Option<D>, created: Result<D, String>) -> (
    Option<D>,
    Result<(), String>,
) {
    if slot is Some {
        (slot, Ok(()))
    } else {
        match created {
            Ok(device) => (Some(device), Ok(())),
            Err(e) => (None, Err(e)),
        }
    }
}

/// Keeps the virtual device that has been made, if there was none.
pub fn keep_device<D>(slot: &mut Option<D>, created: Result<D, String>) -> (r: Result<(), String>)
    ensures
        (*final(slot), r) == slot_after(*old(slot), created),
{
    if slot.is_some() {
        return Ok(());
    }
    match created {
        Ok(device) => {
            *slot = Some(device);
            Ok(())
        },
        Err(e) => Err(e),
    }
}

/// Makes sure that there is a virtual device. It is made when it is first needed, and
/// used again from then on; where it cannot be made, it is tried again the next time.
pub fn init_simulation<D, F: FnOnce() -> Result<D, String>>(slot: &mut Option<D>, create: F) -> (r:
    Result<(), String>)
    requires
        *old(slot) is None ==> create.requires(()),
    ensures
        if *old(slot) is Some {
            r == Ok::<(), String>(()) && *final(slot) == *old(slot)
        } else {
            exists|created: Result<D, String>| #[trigger]
                create.ensures((), created) && (*final(slot), r) == slot_after(*old(slot), created)
        },
        r is Ok <==> *final(slot) is Some,
{
    if slot.is_some() {
        Ok(())
    } else {
        let created = create();
        keep_device(slot, created)
    }
}

/// The virtual device that has been made first is used from then on, whatever comes of
/// making another; and a device that could not be made can still be made later.
pub proof fn the_virtual_device_is_made_once<D>(
    slot: Option<D>,
    first: Result<D, String>,
    second: Result<D, String>,
)
    ensures
        ({
            let (kept, r) = slot_after(slot, first);
            &&& r is Ok ==> kept is Some && slot_after(kept, second) == (kept, r)
            &&& r is Err ==> slot_after(kept, second) == slot_after(slot, second)
        }),
{
}

/// What simulating an event takes: events that the virtual device is to report, or a move
/// of the pointer.
pub enum Simulation<C> {
    Emit(Vec<RawEvent>),
    MovePointer { x: C, y: C },
}

pub enum SimulationView<C> {
    Emit(Seq<RawEvent>),
    MovePointer { x: C, y: C },
}

/// A simulation, or the message that says why there is none, as text.
pub open spec fn plan_view<C>(r: Result<Simulation<C>, String>) -> Result<
    SimulationView<C>,
    Seq<char>,
> {
    match r {
        Ok(Simulation::Emit(events)) => Ok(SimulationView::Emit(events@)),
        Ok(Simulation::MovePointer { x, y }) => Ok(SimulationView::MovePointer { x, y }),
        Err(message) => Err(message@),
    }
}

/// The event of a key or a button that is pressed or released.
pub open spec fn key_event(code: u16, pressed: bool) -> RawEvent {
    RawEvent {
        kind: EV_KEY,
        code,
        value: if pressed {
            1
        } else {
            0
        },
    }
}

/// The code of a named button.
pub open spec fn button_code(button: Button) -> Option<u16> {
    match button {
        Button::Left => Some(BTN_LEFT),
        Button::Right => Some(BTN_RIGHT),
        Button::Middle => Some(BTN_MIDDLE),
        Button::Unknown(_) => None,
    }
}

/// Simulating a key that is pressed or released.
pub open spec fn key_plan<C>(key: keymap::Key, pressed: bool) -> Result<
    SimulationView<C>,
    Seq<char>,
> {
    match keymap::key_code(key) {
        Some(code) => Ok(SimulationView::Emit(seq![key_event(code, pressed)])),
        None => Err("This key has no Linux input code"@),
    }
}

/// Simulating a button that is pressed or released.
pub open spec fn button_plan<C>(button: Button, pressed: bool) -> Result<
    SimulationView<C>,
    Seq<char>,
> {
    match button_code(button) {
        Some(code) => Ok(SimulationView::Emit(seq![key_event(code, pressed)])),
        None => Err("Unknown button cannot be simulated"@),
    }
}

/// What simulating `event` takes.
pub open spec fn plan_of<C>(event: EventType<C>) -> Result<SimulationView<C>, Seq<char>> {
    match event {
        EventType::KeyPress(key) => key_plan(key, true),
        EventType::KeyRelease(key) => key_plan(key, false),
        EventType::ButtonPress(button) => button_plan(button, true),
        EventType::ButtonRelease(button) => button_plan(button, false),
        EventType::Wheel { delta_x, delta_y } => if !(i32::MIN <= delta_x <= i32::MAX) {
            Err("Wheel delta_x is out of range"@)
        } else if !(i32::MIN <= delta_y <= i32::MAX) {
            Err("Wheel delta_y is out of range"@)
        } else {
            Ok(
                SimulationView::Emit(
                    seq![
                        RawEvent { kind: EV_REL, code: REL_HWHEEL, value: delta_x as i32 },
                        RawEvent { kind: EV_REL, code: REL_WHEEL, value: delta_y as i32 },
                    ],
                ),
            )
        },
        EventType::MouseMove { x, y } => Ok(SimulationView::MovePointer { x, y }),
    }
}

fn plan_code<C>(code: u16, pressed: bool) -> (r: Simulation<C>)
    ensures
        r matches Simulation::Emit(events) && events@ == seq![key_event(code, pressed)],
{
    let value: i32 = if pressed {
        1
    } else {
        0
    };
    let mut events: Vec<RawEvent> = Vec::new();
    events.push(RawEvent { kind: EV_KEY, code, value });
    assert(events@ =~= seq![key_event(code, pressed)]);
    Simulation::Emit(events)
}

fn plan_key<C>(key: keymap::Key, pressed: bool) -> (r: Result<Simulation<C>, String>)
    ensures
        plan_view(r) == key_plan::<C>(key, pressed),
{
    match to_evdev(key) {
        Some(code) => Ok(plan_code(code, pressed)),
        None => Err("This key has no Linux input code".to_owned()),
    }
}

fn plan_button<C>(button: Button, pressed: bool) -> (r: Result<Simulation<C>, String>)
    ensures
        plan_view(r) == button_plan::<C>(button, pressed),
{
    match button {
        Button::Left => Ok(plan_code(BTN_LEFT, pressed)),
        Button::Right => Ok(plan_code(BTN_RIGHT, pressed)),
        Button::Middle => Ok(plan_code(BTN_MIDDLE, pressed)),
        Button::Unknown(_) => Err("Unknown button cannot be simulated".to_owned()),
    }
}

/// What simulating `event` takes.
pub fn plan<C>(event: EventType<C>) -> (r: Result<Simulation<C>, String>)
    ensures
        plan_view(r) == plan_of(event),
{
    match event {
        EventType::KeyPress(key) => plan_key(key, true),
        EventType::KeyRelease(key) => plan_key(key, false),
        EventType::ButtonPress(button) => plan_button(button, true),
        EventType::ButtonRelease(button) => plan_button(button, false),
        EventType::Wheel { delta_x, delta_y } => {
            if delta_x < i32::MIN as i64 || delta_x > i32::MAX as i64 {
                return Err("Wheel delta_x is out of range".to_owned());
            }
            if delta_y < i32::MIN as i64 || delta_y > i32::MAX as i64 {
                return Err("Wheel delta_y is out of range".to_owned());
            }
            let mut events: Vec<RawEvent> = Vec::new();
            events.push(RawEvent { kind: EV_REL, code: REL_HWHEEL, value: delta_x as i32 });
            events.push(RawEvent { kind: EV_REL, code: REL_WHEEL, value: delta_y as i32 });
            assert(events@ =~= seq![
                RawEvent { kind: EV_REL, code: REL_HWHEEL, value: delta_x as i32 },
                RawEvent { kind: EV_REL, code: REL_WHEEL, value: delta_y as i32 },
            ]);
            Ok(Simulation::Emit(events))
        },
        EventType::MouseMove { x, y } => Ok(Simulation::MovePointer { x, y }),
    }
}

/// What simulating `event` takes, once there is a virtual device.
pub fn simulate<C, D, F: FnOnce() -> Result<D, String>>(
    slot: &mut Option<D>,
    create: F,
    event: EventType<C>,
) -> (r: Result<Simulation<C>, String>)
    requires
        *old(slot) is None ==> create.requires(()),
    ensures
        if *old(slot) is Some {
            *final(slot) == *old(slot) && plan_view(r) == plan_of(event)
        } else {
            exists|created: Result<D, String>| #[trigger]
                create.ensures((), created) && match created {
                    Ok(device) => *final(slot) == Some(device) && plan_view(r) == plan_of(event),
                    Err(e) => *final(slot) is None && r == Err::<Simulation<C>, String>(e),
                }
        },
{
    match init_simulation(slot, create) {
        Ok(()) => plan(event),
        Err(e) => Err(e),
    }
}

/// What simulating an event returns, where `outcome` says how reporting its events ended.
pub fn emitted(outcome: Result<(), String>) -> (r: Result<(), String>)
    ensures
        text::told(r) == match outcome {
            Ok(()) => Ok::<(), Seq<char>>(()),
            Err(e) => Err("Cannot emit virtual input event: "@ + e@),
        },
{
    match outcome {
        Ok(()) => Ok(()),
        Err(e) => Err(join("Cannot emit virtual input event: ", e.as_str())),
    }
}

/// What the virtual device reports for a key or a button is captured as the same event.
pub proof fn simulated_keys_and_buttons_are_captured<C>(event: EventType<C>)
    requires
        event is KeyPress || event is KeyRelease || event is ButtonPress || event is ButtonRelease,
        plan_of(event) is Ok,
    ensures
        plan_of(event) matches Ok(SimulationView::Emit(events)) && events.len() == 1
            && capture::meaning_of::<C>(events[0]) == capture::Meaning::Event(event),
{
    match event {
        EventType::KeyPress(key) | EventType::KeyRelease(key) => {
            let code = keymap::key_code(key)->0;
            keymap::key_map_round_trips(code, key);
            assert(code <= keymap::LAST_KEY_CODE);
        },
        _ => {},
    }
}

/// What the virtual device reports for the wheels is captured as the horizontal part of
/// the event, then as its vertical part.
pub proof fn simulated_wheels_are_captured<C>(delta_x: i64, delta_y: i64)
    requires
        i32::MIN <= delta_x <= i32::MAX,
        i32::MIN <= delta_y <= i32::MAX,
    ensures
        plan_of(EventType::<C>::Wheel { delta_x, delta_y }) matches Ok(SimulationView::Emit(events))
            && events.len() == 2 && capture::meaning_of::<C>(events[0])
            == capture::Meaning::Event(EventType::<C>::Wheel { delta_x, delta_y: 0 })
            && capture::meaning_of::<C>(events[1]) == capture::Meaning::Event(
            EventType::<C>::Wheel { delta_x: 0, delta_y },
        ),
{
}

/// A key or a button that is captured can be simulated, and its simulation reports the
/// code that was captured: if and only if it has a name.
pub proof fn captured_keys_and_buttons_are_simulated<C>(raw: RawEvent, event: EventType<C>)
    requires
        raw.kind == EV_KEY,
        capture::meaning_of::<C>(raw) == capture::Meaning::Event(event),
    ensures
        plan_of(event) is Ok <==> is_simulated_key(raw.code),
        is_simulated_key(raw.code) ==> plan_of(event) == Ok::<SimulationView<C>, Seq<char>>(
            SimulationView::Emit(seq![key_event(raw.code, raw.value != 0)]),
        ),
{
    keymap::key_map_round_trips(raw.code, keymap::key_of(raw.code));
    if keymap::is_named(raw.code) {
        assert(raw.code <= keymap::LAST_KEY_CODE);
    }
}

/// The virtual device can report every event that is asked of it.
pub proof fn simulated_events_are_supported<C>(event: EventType<C>)
    requires
        plan_of(event) matches Ok(SimulationView::Emit(_)),
    ensures
        plan_of(event) matches Ok(SimulationView::Emit(events)) && forall|i: int|
            0 <= i < events.len() ==> {
                ||| (#[trigger] events[i]).kind == EV_KEY && is_simulated_key(events[i].code)
                ||| events[i].kind == EV_REL && is_simulated_axis(events[i].code)
            },
{
    match event {
        EventType::KeyPress(key) | EventType::KeyRelease(key) => {
            assert(keymap::is_named(keymap::key_code(key)->0));
        },
        _ => {},
    }
}

/// A key or a button that is pressed or released is simulated as one event with its code, and
/// with the value one or zero; one without a code cannot be simulated.
pub proof fn keys_and_buttons_are_simulated_by_their_codes<C>(key: keymap::Key, button: Button)
    ensures
        ({
            let press = |code: u16| RawEvent { kind: 0x01, code, value: 1 };
            let release = |code: u16| RawEvent { kind: 0x01, code, value: 0 };
            let key_press = plan_of(EventType::<C>::KeyPress(key));
            let key_release = plan_of(EventType::<C>::KeyRelease(key));
            let button_press = plan_of(EventType::<C>::ButtonPress(button));
            let button_release = plan_of(EventType::<C>::ButtonRelease(button));
            let code = match button {
                Button::Left => 0x110u16,
                Button::Right => 0x111u16,
                _ => 0x112u16,
            };
            &&& match keymap::key_code(key) {
                Some(code) => {
                    &&& key_press matches Ok(SimulationView::Emit(events)) && events == seq![
                        press(code),
                    ]
                    &&& key_release matches Ok(SimulationView::Emit(events)) && events == seq![
                        release(code),
                    ]
                },
                None => {
                    &&& key_press matches Err(message) && message
                        == "This key has no Linux input code"@
                    &&& key_release matches Err(message) && message
                        == "This key has no Linux input code"@
                },
            }
            &&& match button {
                Button::Unknown(_) => {
                    &&& button_press matches Err(message) && message
                        == "Unknown button cannot be simulated"@
                    &&& button_release matches Err(message) && message
                        == "Unknown button cannot be simulated"@
                },
                _ => {
                    &&& button_press matches Ok(SimulationView::Emit(events)) && events == seq![
                        press(code),
                    ]
                    &&& button_release matches Ok(SimulationView::Emit(events)) && events == seq![
                        release(code),
                    ]
                },
            }
        }),
{
}

/// Both wheels are turned by what is asked for, be it negative or not, the horizontal one
/// first; what no event can hold is refused, the horizontal part first.
pub proof fn wheels_turn_by_what_is_asked_for<C>(delta_x: i64, delta_y: i64)
    ensures
        ({
            let plan = plan_of(EventType::<C>::Wheel { delta_x, delta_y });
            let x_fits = -0x8000_0000 <= delta_x <= 0x7fff_ffff;
            let y_fits = -0x8000_0000 <= delta_y <= 0x7fff_ffff;
            &&& x_fits && y_fits ==> (plan matches Ok(SimulationView::Emit(events)) && {
                &&& events.len() == 2
                &&& events[0].kind == 0x02 && events[0].code == 0x06 && events[0].value == delta_x
                &&& events[1].kind == 0x02 && events[1].code == 0x08 && events[1].value == delta_y
            })
            &&& !x_fits ==> (plan matches Err(message) && message
                == "Wheel delta_x is out of range"@)
            &&& x_fits && !y_fits ==> (plan matches Err(message) && message
                == "Wheel delta_y is out of range"@)
        }),
{
}

/// The pointer is moved to the place that is asked for, whatever it is.
pub proof fn the_pointer_moves_where_it_is_asked_to<C>(x: C, y: C)
    ensures
        plan_of(EventType::<C>::MouseMove { x, y }) matches Ok(
            SimulationView::MovePointer { x: to_x, y: to_y },
        ) && to_x == x && to_y == y,
{
}

/// The virtual device can report the code of every named key, the three named buttons, the two
/// axes of the pointer and the two of the wheels, and nothing else.
pub proof fn the_virtual_device_reports_what_has_a_name(code: u16, key: keymap::Key)
    ensures
        keymap::key_code(key) == Some(code) ==> simulated_keys().contains(code),
        0x110 <= code <= 0x112 ==> simulated_keys().contains(code),
        simulated_keys().contains(code) && !(0x110 <= code <= 0x112) ==> keymap::key_code(
            keymap::key_of(code),
        ) == Some(code),
        simulated_axes().contains(code) <==> code == 0 || code == 1 || code == 6 || code == 8,
{
    keymap::key_map_round_trips(code, key);
    keymap::key_map_round_trips(code, keymap::key_of(code));
}

/// A virtual device that is there is kept whatever making another would give; where there is
/// none, the one that has been made is put there, or the error is handed on and none is.
pub proof fn a_device_is_kept_or_put_there<D>(slot: Option<D>, made: D, e: String)
    ensures
        slot is Some ==> slot_after(slot, Ok(made)).0 == slot && slot_after(slot, Ok(made)).1
            is Ok,
        slot is Some ==> slot_after(slot, Err(e)).0 == slot && slot_after(slot, Err(e)).1 is Ok,
        slot is None ==> slot_after(slot, Ok(made)).0 == Some(made) && slot_after(
            slot,
            Ok(made),
        ).1 is Ok,
        slot is None ==> slot_after(slot, Err(e)) == (None::<D>, Err::<(), String>(e)),
{
}

/// Making the device goes from its opening to its keys, from these to its axes, and from these
/// to its creation; each step that fails says which it was, and holds the whole error.
pub proof fn the_device_is_made_in_order<B, D>(builder: B, device: D, e: String)
    ensures
        ({
            let ok = BuildReply::<B, D>::Builder(Ok(builder));
            let failed = BuildReply::<B, D>::Builder(Err(e));
            let fails = |step: BuildStep, reply: BuildReply<B, D>, message: Seq<char>|
                step.accepts(reply) && step.step(reply) == (
                    BuildStep::Finished,
                    BuildActionView::<B, D>::Return(Err(message)),
                );
            &&& BuildStep::Opening.accepts(ok) && BuildStep::Opening.step(ok).0
                == BuildStep::AddingKeys
            &&& BuildStep::AddingKeys.accepts(ok) && BuildStep::AddingKeys.step(ok).0
                == BuildStep::AddingAxes
            &&& BuildStep::AddingAxes.accepts(ok) && BuildStep::AddingAxes.step(ok).0
                == BuildStep::Creating
            &&& BuildStep::Creating.accepts(BuildReply::<B, D>::Device(Ok(device)))
            &&& fails(BuildStep::Opening, failed, "Cannot open /dev/uinput: "@ + e@)
            &&& fails(BuildStep::AddingKeys, failed, "Cannot configure virtual keys: "@ + e@)
            &&& fails(BuildStep::AddingAxes, failed, "Cannot configure virtual pointer: "@ + e@)
            &&& fails(
                BuildStep::Creating,
                BuildReply::<B, D>::Device(Err(e)),
                "Cannot create virtual input device: "@ + e@,
            )
        }),
{
}

/// What is said of an action and of a plan is all that they hold.
pub proof fn actions_and_plans_are_shown_whole<B, C, D>(
    action: BuildAction<B, D>,
    plan: Result<Simulation<C>, String>,
)
    ensures
        match action {
            BuildAction::AddKeys { builder, name, keys } => action@ matches
                BuildActionView::AddKeys { builder: b, name: n, keys: k } && b == builder && n
                == name@ && k == attributes::held_keys(keys),
            BuildAction::AddAxes { builder, axes } => action@ matches BuildActionView::AddAxes {
                builder: b,
                axes: a,
            } && b == builder && a == attributes::held_axes(axes),
            BuildAction::Create(builder) => action@ == BuildActionView::<B, D>::Create(builder),
            BuildAction::Return(Ok(device)) => action@ == BuildActionView::<B, D>::Return(
                Ok(device),
            ),
            BuildAction::Return(Err(message)) => action@ == BuildActionView::<B, D>::Return(
                Err(message@),
            ),
        },
        match plan {
            Ok(Simulation::Emit(events)) => plan_view(plan) matches Ok(SimulationView::Emit(seen))
                && seen == events@,
            Ok(Simulation::MovePointer { x, y }) => plan_view(plan) matches Ok(
                SimulationView::MovePointer { x: to_x, y: to_y },
            ) && to_x == x && to_y == y,
            Err(message) => plan_view(plan) matches Err(seen) && seen == message@,
        },
{
}

} // verus!
