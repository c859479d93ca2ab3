# rude_honker

Verified logic of a wireless omniwheel robot and its single-joystick controller.

- `src/protocol.rs`: message types, drive modes and the move packet
  `[Move, x_high, x_low, y_high, y_low, mode]`, with the encode/decode laws.
- `src/joystick.rs`: scaling calibrated ADC readings to stick positions, calibration.
- `src/mixing.rs`: omniwheel mixing and speed-to-motor-command conversion. Strafe mixes
  `(y + x, y - x, y - x, y + x)` and Rotate `(y + x, y - x, y + x, y - x)` (front left,
  front right, back left, back right), so the two modes share the front wheels and
  differ only at the back.
- `src/controller.rs`: the controller's per-turn decisions (handshake, debounced
  mode toggle, mode resends, when to send a move).
- `src/platform.rs`: the platform's answer to each received packet.
- `src/stepper.rs`: the robot arm's full-step sequence.
- `app/`: the firmware around the library (ESP32-C6, esp-hal, ESP-NOW, TB6612FNG).
