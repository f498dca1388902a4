# game_logic

The rules behind a multiplayer game template, proved with Verus.

- `src/` is the verified library: key, mouse and gamepad binding names and
  their parsing, the keyboard and gamepad input maps and input-device
  selection, dynamic-object state and visual actions, lighting presets and
  debug keys, skybox layout detection, the camera view-mode cycle, movement
  intents, collision-mesh filtering and index extraction, the hot-reload
  polling state, hex colors, asset paths, logging and networking settings
  derived from configuration, and the command-line modes.
- `tests/` runs the library on concrete values.
- `app/` is a headless host built on the engine: command-line parsing,
  environment and JSON configuration, file polling for hot reload, the
  engine's input codes, and the floating-point lighting, skybox and rollback
  arithmetic.
