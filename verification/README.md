# wiiland

The logic of the WiiLand input stack for Wii-family controllers, written in
Verus. Every function in `src/` carries a contract and is proved against it,
except two small trusted wrappers over the standard library, whose contracts
Verus takes on trust: `text::push_char` (`String::push`) and
`dist::debug_text` (the `Debug` text of a string, whose result is only
named, `debug_quoted`).

- `src/` — the verified library (see the module list in `src/lib.rs`).
- `tests/` — tests that run the library on concrete values.
- `app/` — thin command-line front ends (`dump`, `doctor`,
  `hardware-report`, `xtask`) that do the reading, writing and process
  spawning and hand plain values to the library.

Not included: the parts of the daemon and the viewer that rest on the
configuration, HID and IPC crates of the stack, which are not part of this
build — the per-device bridge that maps events to virtual devices, the
reactor loop, the virtual-device backends, configuration loading and
validation, the IPC server, and the viewer's terminal interface. Their
decisions are in `src/` (`bridge`, `reactor`, `uinput`, `session`, `show`);
the loops and devices around them are not.
