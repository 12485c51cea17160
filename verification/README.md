# gsteng

The engineering core of a TARS-style assistant: a robot's servo and
locomotion control, Raspberry Pi tuning, remote sessions, VS Code
automation, TARS's personality and voice. The library is written in Verus,
and every function in it carries a contract that Verus proves.

## Layout

- `src/` — the verified library.
  - `robotics/` servo tables and angle mapping, the PCA9685 register
    protocol, gamepad and mobility decisions, TARS's poses and gait.
  - `raspberry_pi/` model profiles, boot and limit configuration, CPU and
    thermal tuning, resource optimisation, health summaries, GPIO, buses,
    watchdog and status LEDs.
  - `remote/` SSH tunnels, Cline sessions and tasks, multi-system
    execution and its reports.
  - `personality/` TARS's manner of speaking, coding standards and the
    engineering manager's checks.
  - `voice/` the speech queue, text shaping, speech timing and prosody,
    recognition and command interpretation, wake words, the model cache and
    the real-time pipeline's settings.
  - `vscode/` VS Code command lines and the reading of their output.
  - `safety.rs`, `text.rs`, `chance.rs`, `clock.rs` — motion safety, text
    primitives, and the calls that draw random values and read the clock.
- `app/` — the application around the library: hardware and file I/O,
  networking, async tasks, audio synthesis and the other floating-point work.
- `tests/` — tests of the library.

Fractional quantities are held as integers in thousandths (`*_milli`),
hundredths or other named units, so that the library needs no floating
point.
