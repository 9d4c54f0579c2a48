# nowhear

What a cross-platform monitor for media playback decides and computes, verified with Verus.

- `src/` is the library: tracks, players and events (`types`), errors (`error`), the events between
  two snapshots of a player (`platform::state`), and the logic of the three backends
  (`platform::linux`, `platform::macos`, `platform::windows`). It reads D-Bus messages through
  `zbus` and encodes artwork with `base64`; what it trusts of them is stated where they are called.
- `app/` is ordinary Rust around it: the connection to the session bus, the scripting component of
  macOS, Windows Media Control, the tasks and channels, and copies of the data types that can be
  serialised.
- `tests/` runs the library from outside.

A double (a volume, a rating) is held by its bits, as `number::Real64`. A span of time is modelled
by its length in nanoseconds.
