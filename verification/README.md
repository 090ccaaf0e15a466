# sdl2xinput

The input-translation core of a bridge that turns SDL3 game controllers into
virtual Xbox 360 controllers, written in Verus with its behaviour stated in
contracts and proved.

- `src/keys.rs`: key and mouse-button names to HID codes; action names.
- `src/config.rs`, `src/cli.rs`: remapping, axis and keyboard settings; the
  command-line settings.
- `src/mapping.rs`: one gamepad reading to an Xbox 360 state (remapping,
  trigger scaling, deadzone, inversion), with the remapping laws.
- `src/session.rs`: per-controller state: rumble refresh, touchpad actions on
  the virtual mouse and keyboard, the frame sent each poll.
- `src/devices.rs`: the "VID:PID" device filter, the block list and the
  decision on a newly connected gamepad.
- `src/viiper_bridge.rs`: the virtual device states.
- `app/`: the program around the library: SDL3 polling, the libVIIPER FFI,
  the TOML config file, the command line and the tray icon.
