//! System-wide keyboard and mouse capture and simulation: the decisions, without
//! the devices.

use crate::text::join;
use vstd::prelude::*;

pub mod events;
pub mod linux_outputs;
pub mod linux_wayland;
pub mod listener;
pub mod result_laws;
pub mod text;

pub use events::{
    ButtonPressEvent, ButtonReleaseEvent, EventTypeValue, InputEvent, KeyPressEvent,
    KeyReleaseEvent, MouseMoveEvent, WheelEvent, simulate_event,
};
pub use listener::{start_listener, stop_listener};

verus! {

/// Tells whether input can be simulated, where `probe` is the size of the display, or why
/// it cannot be had. Simulation is available where a display can be reached.
pub fn init_simulation(probe: Result<(u64, u64), String>) -> (r: Result<(), String>)
    ensures
        text::told(r) == match probe {
            Ok(_) => Ok::<(), Seq<char>>(()),
            Err(e) => Err("Input simulation is not available: "@ + e@),
        },
{
    match probe {
        Ok(_) => Ok(()),
        Err(e) => Err(join("Input simulation is not available: ", e.as_str())),
    }
}

/// The size of the main display, where `size` is what asking for it gave.
pub fn get_display_size(size: Result<(u64, u64), String>) -> (r: Result<(u64, u64), String>)
    ensures
        match size {
            Ok(s) => r == Ok::<(u64, u64), String>(s),
            Err(e) => r matches Err(message) && message@ == "Failed to get display size: "@ + e@,
        },
{
    match size {
        Ok(s) => Ok(s),
        Err(e) => Err(join("Failed to get display size: ", e.as_str())),
    }
}

} // verus!
