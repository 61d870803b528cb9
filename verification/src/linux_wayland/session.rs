//! Which kind of session this is.

use vstd::prelude::*;

verus! {

/// The session is one of Wayland, by its environment: whether a Wayland display is named,
/// and what the type of the session is said to be, if it is said in Unicode.
pub fn is_wayland(display_named: bool, session_type: &Option<String>) -> (r: bool)
    ensures
        r == (display_named && (*session_type matches Some(kind) && kind@ == "wayland"@)),
{
    match session_type {
        Some(kind) => display_named && *kind == "wayland".to_owned(),
        None => false,
    }
}

} // verus!
