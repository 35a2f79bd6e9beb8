# ainput

`ainput` multiplexes a physical multitouch (type B) touchscreen and one
virtual contact onto a single virtual `uinput` touchscreen.

## Layout

- `src/` — the verified library (Verus):
  - `device.rs`: what makes an evdev device a direct MT-B touchscreen, its
    score, the choice among candidates, and the texts that describe them;
  - `multiplexer.rs`: the slot state of the physical contacts, the virtual
    contact, the conversion of display coordinates to raw ones, and the
    complete frame written to the virtual device;
  - `uinput.rs`: the virtual device's axes, the state it holds and the
    input events that each update writes;
  - `human.rs`, `touch.rs`: touch actions and the profile that delays them;
  - `text.rs`, `bounds.rs`, `time.rs`, `codes.rs`, `external.rs`: decimal
    and ASCII text, integer bounds, durations, input event codes, and the
    outside types carried through.
- `app/` — the I/O around it: reading evdev devices, creating and writing
  the `uinput` device, grabbing the touchscreen, sleeping and polling.
- `tests/` — tests of the library.
