# Attacca

A Roon desktop client for Linux. This crate holds its decision logic, verified
with Verus; the Qt/QML application, the debug CLI and everything that talks to
the network, the file system or D-Bus live in `app/`.

## Layout

- `src/` — the verified library:
  - `zones`, `sort`, `session`: the zone list, its events, the selection, the
    now-playing view and the commands of a session with a Core;
  - `browse`: the browse hierarchy and its paging;
  - `bridge`: the UI object's command side;
  - `bridge_setup`: the guided Roon Bridge install, its step order, the unit
    file, and switching a device between exclusive ALSA and the desktop mix;
  - `json`: JSON documents, read and written through `serde_json`;
  - `mpris`: the media-keys player state;
  - `cli`: the debug CLI's lines and decisions;
  - `paths`, `client`, `text`: file locations, the client identity, and
    string helpers.
- `tests/` — tests of the library on concrete values.
- `app/` — the application around the library.

Each public function states its result in its `ensures`; the `law_*` proof
functions state what holds across calls.
