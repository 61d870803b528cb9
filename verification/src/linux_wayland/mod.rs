//! Capture and simulation below a Wayland compositor, through Linux input devices.
//!
//! Physical events are read from the devices; simulated ones go through a virtual device.

pub mod attributes;
pub mod capture;
pub mod codes;
pub mod devices;
pub mod keymap;
pub mod listen;
pub mod listen_laws;
pub mod open;
pub mod pointer;
pub mod poll;
pub mod run_laws;
pub mod session;
pub mod simulate;
pub mod step_laws;

pub use crate::linux_outputs::display_size;
pub use capture::capture_event;
pub use listen::listen;
pub use open::preflight_capture;
pub use session::is_wayland;
pub use simulate::{init_simulation, simulate};
