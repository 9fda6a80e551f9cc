# corallium_config

The logic of a handheld's configuration screen (quit, volume, shutdown,
reset), verified with Verus.

- `src/timing.rs`: hold-and-repeat timing of one direction, with its laws.
- `src/input.rs`: one frame of keyboard and gamepad input, and the four
  direction timers (`InputManager`).
- `src/menu.rs`: menu navigation, volume steps and the action of a frame.
- `src/display.rs`: clock and battery digits, digit sprite cells, gauges.
- `app/main.rs`: the macroquad program that reads the devices, calls the
  library once per frame and draws the screen.

The library holds times in microseconds, stick positions in millionths of
full deflection and the volume in whole percent; `app/` converts the
floating-point readings of the devices into these units.
