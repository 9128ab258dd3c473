# splitkb

Firmware logic of an RP2040 split keyboard, verified with Verus.

- `src/protocol.rs`: the two-byte frames that carry key events between the
  halves over UART, the receiver state machine (`RA`), and the round-trip laws.
- `src/scan.rs`: debouncing of the 6×9 key matrix through keyberon's
  `Debouncer`, with the events it reports stated exactly.
- `src/tasks.rs`: what the scan and receive interrupts do with events, as
  lists of actions (spawn the layout task, write a frame).
- `src/keymap.rs`: `Keymap`, a keyberon `Layout` over layers of key codes and
  no-ops only, the layout step through it, and the
  decisions around writing HID reports.
- `app/`: the RTIC firmware that owns the peripherals, performs the I/O and
  calls the library.
