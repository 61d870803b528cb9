//! How the results of calls relate to what is handed to them, and to each other.

use crate::events;
use crate::events::{Event, EventDataError, EventType, InputEvent};
use crate::linux_outputs;
use crate::linux_outputs::OutputInfo;
use crate::linux_wayland::attributes;
use crate::linux_wayland::attributes::{AxisSet, KeySet};
use crate::linux_wayland::capture;
use crate::linux_wayland::codes::RawEvent;
use crate::linux_wayland::devices;
use crate::linux_wayland::devices::DevicePath;
use crate::linux_wayland::keymap;
use crate::linux_wayland::keymap::Key;
use crate::linux_wayland::poll;
use crate::linux_wayland::session;
use crate::linux_wayland::simulate;
use crate::linux_wayland::simulate::Simulation;
use crate::listener;
use crate::listener::ListenerSlot;
use crate::text;
use std::collections::HashMap;
use vstd::prelude::*;

verus! {

/// `r` succeeds if and only if `outcome` does; else its message is `context`, followed by the
/// error of `outcome`.
pub open spec fn is_explained<T, U>(
    outcome: Result<T, String>,
    context: Seq<char>,
    r: Result<U, String>,
) -> bool {
    &&& r is Ok <==> outcome is Ok
    &&& outcome matches Err(e) ==> (r matches Err(message) && message@ == context + e@)
}

/// What is asked of the system and fails, fails with the whole error of the system, and says
/// what failed; what succeeds is handed on as it is.
pub proof fn outcomes_are_handed_on(
    size: Result<(u64, u64), String>,
    shown: Result<(u64, u64), String>,
    outcome: Result<(), String>,
    ready: Result<(), String>,
    simulated: Result<(), String>,
    emitted: Result<(), String>,
)
    requires
        call_ensures(crate::get_display_size, (size,), shown),
        call_ensures(crate::init_simulation, (size,), ready),
        call_ensures(events::simulated, (outcome,), simulated),
        call_ensures(simulate::emitted, (outcome,), emitted),
    ensures
        is_explained(size, "Failed to get display size: "@, shown),
        is_explained(outcome, "Failed to simulate event: "@, simulated),
        is_explained(outcome, "Cannot emit virtual input event: "@, emitted),
        is_explained(size, "Input simulation is not available: "@, ready),
        size is Ok ==> shown == size,
{
}

/// A session is one of Wayland if and only if a display of Wayland is named and the type of the
/// session is `wayland` to the letter.
pub proof fn sessions_are_told_apart(named: bool, kind: Option<String>, r: bool)
    requires
        call_ensures(session::is_wayland, (named, &kind), r),
    ensures
        r <==> named && kind is Some && kind->0@ == "wayland"@,
{
}

/// Texts are put together whole and in order, and numbers are written so that they can be read
/// back.
pub proof fn texts_are_put_together(a: &str, b: &str, joined: String, n: u64, written: String)
    requires
        call_ensures(text::join, (a, b), joined),
        call_ensures(text::to_decimal, (n,), written),
    ensures
        joined@.len() == a@.len() + b@.len(),
        joined@.take(a@.len() as int) == a@,
        joined@.skip(a@.len() as int) == b@,
        text::number_told(written@) == n,
{
    assert(joined@.take(a@.len() as int) =~= a@);
    assert(joined@.skip(a@.len() as int) =~= b@);
    text::decimals_can_be_read_back(n as nat);
}

/// The thread of a listener is given what takes its events if and only if it need not stop, and
/// that is while its listener is the active one; and while there is one, none may be started.
pub proof fn a_thread_stops_when_it_cannot_deliver<'a, E, R>(
    slot: &'a ListenerSlot<E, R>,
    generation: u64,
    taker: Option<&'a E>,
    stop: bool,
    start: Result<(), String>,
)
    requires
        call_ensures(listener::current_events::<E, R>, (slot, generation), taker),
        call_ensures(listener::should_stop::<E, R>, (slot, generation), stop),
        call_ensures(listener::may_start::<E, R>, (slot,), start),
    ensures
        stop <==> taker is None,
        taker is Some <==> slot.active is Some && slot.active->0.generation == generation,
        taker matches Some(events) ==> *events == slot.active->0.events && start is Err,
        start is Ok <==> slot.active is None && !slot.native_running,
{
}

/// What scripts have been shown of an event with a name and a valid time comes back as the same
/// event when they ask for it to be simulated.
pub proof fn what_was_shown_can_be_asked_for<C>(
    event: Event<C>,
    time: i128,
    shown: InputEvent<C>,
    asked: Result<EventType<C>, EventDataError>,
)
    requires
        call_ensures(events::input_event::<C>, (event, time), shown),
        call_ensures(events::simulate_event::<C>, (shown,), asked),
        0 <= time < 0x20_0000_0000_0000,
        match event.event_type {
            EventType::KeyPress(key) | EventType::KeyRelease(key) => !(key is Unknown),
            EventType::ButtonPress(button) | EventType::ButtonRelease(button) => !(button
                is Unknown),
            _ => true,
        },
    ensures
        asked == Ok::<EventType<C>, EventDataError>(event.event_type),
        shown.name == event.name,
        shown.time == Some(time),
{
}

/// The size of a desktop depends on its outputs alone: two calls on the same outputs agree.
pub proof fn a_desktop_has_one_size(
    outputs: HashMap<u32, OutputInfo>,
    first: Result<(u64, u64), String>,
    second: Result<(u64, u64), String>,
)
    requires
        call_ensures(linux_outputs::desktop_size, (&outputs,), first),
        call_ensures(linux_outputs::desktop_size, (&outputs,), second),
    ensures
        first is Ok <==> second is Ok,
        first is Ok ==> first == second,
{
    linux_outputs::the_desktop_reaches_from_edge_to_edge(outputs@, first);
    linux_outputs::the_desktop_reaches_from_edge_to_edge(outputs@, second);
}

/// One output that has a place and covers an area makes a desktop of exactly its size.
pub proof fn a_single_output_is_the_desktop(
    outputs: HashMap<u32, OutputInfo>,
    name: u32,
    width: i32,
    height: i32,
    r: Result<(u64, u64), String>,
)
    requires
        call_ensures(linux_outputs::desktop_size, (&outputs,), r),
        forall|other: u32| #[trigger] outputs@.contains_key(other) <==> other == name,
        outputs@[name].position is Some,
        outputs@[name].size == Some((width, height)),
        width > 0,
        height > 0,
    ensures
        r matches Ok((w, h)) && w == width && h == height,
{
    linux_outputs::the_desktop_reaches_from_edge_to_edge(outputs@, r);
    assert(outputs@.contains_key(name));
    assert(linux_outputs::area(outputs@[name]) is Some);
}

/// A device that polling shows to be gone is forgotten and not read; any other is kept, and read
/// if and only if it has events.
pub proof fn no_device_is_both_read_and_forgotten(
    revents: Vec<Option<i16>>,
    r: (Vec<usize>, Vec<usize>),
    i: usize,
)
    requires
        call_ensures(poll::poll_results, (&revents,), r),
        i < revents@.len(),
    ensures
        !(r.0@.contains(i) && r.1@.contains(i)),
        revents@[i as int] is None ==> !r.0@.contains(i) && !r.1@.contains(i),
        revents@[i as int] matches Some(bits) ==> {
            &&& bits & 0x010 != 0 ==> r.1@.contains(i)
            &&& bits & 0x008 != 0 ==> r.1@.contains(i)
            &&& bits & 0x020 != 0 ==> r.1@.contains(i)
            &&& bits & 0x010 == 0 && bits & 0x008 == 0 && bits & 0x020 == 0 ==> !r.1@.contains(i)
                && (r.0@.contains(i) <==> bits & 0x001 != 0)
        },
{
}

/// A device is listened to if another is that supports no more than it does.
pub proof fn a_device_that_supports_more_is_relevant_too(
    keys: &evdev::AttributeSetRef<evdev::KeyCode>,
    more_keys: &evdev::AttributeSetRef<evdev::KeyCode>,
    relative: Option<&evdev::AttributeSetRef<evdev::RelativeAxisCode>>,
    absolute: Option<&evdev::AttributeSetRef<evdev::AbsoluteAxisCode>>,
    r: bool,
    with_more: bool,
    with_keys_alone: bool,
)
    requires
        call_ensures(devices::relevant, (Some(keys), relative, absolute), r),
        call_ensures(devices::relevant, (Some(more_keys), relative, absolute), with_more),
        call_ensures(devices::relevant, (Some(keys), None, None), with_keys_alone),
        attributes::key_codes(keys).subset_of(attributes::key_codes(more_keys)),
    ensures
        with_keys_alone ==> r,
        r ==> with_more,
        with_keys_alone <==> attributes::key_codes(keys).contains(30) || attributes::key_codes(
            keys,
        ).contains(28) || attributes::key_codes(keys).contains(0x110),
{
}

/// The devices that are listed are entries that were given, with names that begin with `event`;
/// every entry with such a name is listed; and the names do not descend.
pub proof fn devices_are_listed_in_order(entries: Vec<DevicePath>, r: Vec<DevicePath>)
    requires
        call_ensures(devices::device_paths, (entries,), r),
    ensures
        forall|path: DevicePath| #[trigger]
            r@.to_multiset().count(path) == if path.file_name@.len() >= 5 && path.file_name@[0]
                == 101 && path.file_name@[1] == 118 && path.file_name@[2] == 101
                && path.file_name@[3] == 110 && path.file_name@[4] == 116 {
                entries@.to_multiset().count(path)
            } else {
                0
            },
        forall|i: int, j: int, k: int|
            0 <= i < j < r@.len() ==> !#[trigger] devices::is_smaller_at(
                #[trigger] r@[j].file_name@,
                #[trigger] r@[i].file_name@,
                k,
            ),
{
    devices::the_listing_is_complete_and_sorted(entries@);
}

/// A key that has a code comes back from it, and a code that stands for a key that has one is
/// that code; two keys never share one.
pub proof fn keys_and_codes_go_both_ways(
    a: Key,
    b: Key,
    code: u16,
    key: Key,
    code_of_a: Option<u16>,
    code_of_b: Option<u16>,
    codes: Vec<u16>,
)
    requires
        call_ensures(keymap::to_evdev, (a,), code_of_a),
        call_ensures(keymap::to_evdev, (b,), code_of_b),
        call_ensures(keymap::from_evdev, (code,), key),
        call_ensures(keymap::supported_keys, (), codes),
    ensures
        code_of_a == Some(code) ==> key == a && codes@.contains(code),
        code_of_a is Some && code_of_a == code_of_b ==> a == b,
        codes@.contains(code) <==> !(key is Unknown),
        key matches Key::Unknown(n) ==> n == code,
{
    keymap::key_map_round_trips(code, a);
    keymap::key_map_round_trips(code, b);
    if code_of_a is Some {
        keymap::key_map_round_trips(code_of_a->0, a);
        keymap::key_map_round_trips(code_of_a->0, b);
    }
}

/// What is simulated for a key, a button or a wheel is captured again as what was asked for: a
/// wheel in its two parts.
pub proof fn what_is_simulated_is_captured_again<C>(
    event: EventType<C>,
    events: Vec<RawEvent>,
    first: capture::Meaning<C>,
    second: capture::Meaning<C>,
)
    requires
        call_ensures(
            simulate::plan::<C>,
            (event,),
            Ok::<Simulation<C>, String>(Simulation::Emit(events)),
        ),
        call_ensures(capture::interpret::<C>, (events@[0],), first),
        events@.len() > 1 ==> call_ensures(capture::interpret::<C>, (events@[1],), second),
    ensures
        match event {
            EventType::Wheel { delta_x, delta_y } => {
                &&& events@.len() == 2
                &&& first == capture::Meaning::Event(EventType::<C>::Wheel { delta_x, delta_y: 0 })
                &&& second == capture::Meaning::Event(EventType::<C>::Wheel { delta_x: 0, delta_y })
            },
            EventType::MouseMove { .. } => false,
            _ => events@.len() == 1 && first == capture::Meaning::Event(event),
        },
{
    let plan: Result<Simulation<C>, String> = Ok(Simulation::Emit(events));
    assert(simulate::plan_view(plan) == simulate::plan_of(event));
    match event {
        EventType::Wheel { delta_x, delta_y } => {
            simulate::wheels_turn_by_what_is_asked_for::<C>(delta_x, delta_y);
            simulate::simulated_wheels_are_captured::<C>(delta_x, delta_y);
        },
        EventType::MouseMove { .. } => {},
        _ => {
            simulate::simulated_keys_and_buttons_are_captured(event);
        },
    }
}

/// Motion in any direction is reported at the place that asking for it gives, and the failure to
/// tell the place is handed on.
pub proof fn motion_is_reported_whatever_its_direction<C, F: Fn() -> Result<(C, C), String>>(
    e: RawEvent,
    location: &F,
    r: Result<Option<Event<C>>, String>,
)
    requires
        call_ensures(capture::capture_event::<C, F>, (e, location), r),
        e.kind == 0x02 || e.kind == 0x03,
        e.code == 0x00 || e.code == 0x01,
    ensures
        r matches Ok(given) ==> (given matches Some(event) && (event.event_type matches
            EventType::MouseMove { x, y } && location.ensures((), Ok((x, y)))) && event.name
            is None),
        r matches Err(message) ==> location.ensures((), Err(message)),
{
}

/// The virtual device supports the three buttons, every key that has a code, and the four axes.
pub proof fn the_virtual_device_supports_what_is_simulated(
    keys: KeySet,
    axes: AxisSet,
    key: Key,
    code: u16,
)
    requires
        call_ensures(simulate::virtual_keys, (), keys),
        call_ensures(simulate::virtual_axes, (), axes),
        call_ensures(keymap::to_evdev, (key,), Some(code)),
    ensures
        attributes::held_keys(keys).contains(code),
        attributes::held_keys(keys).contains(0x110),
        attributes::held_keys(keys).contains(0x111),
        attributes::held_keys(keys).contains(0x112),
        attributes::held_axes(axes).contains(0),
        attributes::held_axes(axes).contains(1),
        attributes::held_axes(axes).contains(6),
        attributes::held_axes(axes).contains(8),
{
    simulate::the_virtual_device_reports_what_has_a_name(code, key);
    simulate::the_virtual_device_reports_what_has_a_name(0x110, key);
    simulate::the_virtual_device_reports_what_has_a_name(0x111, key);
    simulate::the_virtual_device_reports_what_has_a_name(0x112, key);
}

} // verus!
