# rdev-node

A Node.js addon that listens to the keyboard and the mouse of the whole system, and simulates
their input. The decisions that it makes are verified with Verus.

- `src/` is the verified library, `rdev_node`. It does no input or output of its own. What
  takes many steps (opening the devices, listening, moving the pointer, asking the compositor for
  its outputs) is a function from a state and a reply to the next state and the next action.
- `app/` is the addon. It performs the actions, hands back the replies, and exports the functions
  that scripts call.
- `tests/` runs the library on concrete values.

| module | what it decides |
|---|---|
| `events` | which events can be simulated, and what scripts see of captured ones |
| `listener` | when the one listener of a process may start, stop and report its failure |
| `linux_outputs` | the size of the desktop that the outputs of a compositor span |
| `linux_wayland::devices`, `open` | which input devices are opened, and what keeps capture from starting |
| `linux_wayland::listen`, `poll` | what is read from the devices, in which order, and until when |
| `linux_wayland::capture`, `keymap` | what an event of a device means |
| `linux_wayland::simulate`, `pointer` | what the virtual device reports, and how the pointer is moved |

The sets of keys and axes come from the `evdev` crate, and the flags of a poll from `nix`: what the
proofs take for granted of them is stated in `linux_wayland::attributes` and
`linux_wayland::poll`. What holds of a listener over many steps is in
`linux_wayland::listen_laws`, and what holds of it from its start to its end in
`linux_wayland::run_laws`.
