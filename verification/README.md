# joycon-merger

Merges a left and a right Nintendo Joy-Con into one virtual Xbox 360 pad.

- `src/` — the verified library:
  - `joycon.rs`: decoding of full (0x30) and simple (0x3F) input reports, the
    stick dead-zone and its laws (direction, monotonicity, odd symmetry);
  - `vigem.rs`: the XInput pad report and the button word it carries;
  - `hid.rs`: finding Joy-Cons among HID interfaces and choosing the interface
    to open;
  - `merger.rs`: the left/right merge, and the control loop as a state machine
    (scan, open, plug in the virtual pad, poll, pace frames, reconnect);
  - `panel.rs`: connection states and the bounded event log of the status panel.
- `app/` — the program: HID access (hidapi), the ViGEmBus pad (vigem-client),
  the thread that performs the state machine's commands, and a console status
  front end.
- `tests/` — tests of the library on concrete reports, devices and event
  sequences.
