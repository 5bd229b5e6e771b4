# annepro2_tools

A firmware update tool for the Anne Pro 2 keyboard, which talks to the
keyboard's USB IAP loader through HID reports. The library under `src/` is
verified with Verus; `app/` is the command-line program around it.

- `src/target.rs`: bus nodes (`AP2Target`) and command codes.
- `src/frame.rs`: request reports and reply parsing, and which reply answers
  which request.
- `src/layout.rs`: the partition layout, the image and address-space checks,
  status and mode replies.
- `src/session.rs`: the flashing sequence as a state machine, with the laws
  that every run obeys (nothing is erased before the layout and mode checks,
  writes go through the image in order and carry exactly the image).
- `src/text.rs`, `src/error.rs`: progress lines, byte counts and error texts.
- `src/device.rs`, `src/cli.rs`: device selection and command-line values.
- `app/`: argument handling, the terminal, and the HID transport (`hidapi`).

Put the keyboard into IAP mode by holding `esc` while plugging it in.
