# claw_kernel

The core of a macOS accessibility inspector (Tauri + Swift), verified with Verus.

- `src/` — the verified library:
  - `bridge`: decoding of the string replies of the Swift accessibility layer
    (`error:` failures, `ok:` dump paths, JSON trees);
  - `commands`: the choices of the commands (dump path, permission check,
    parse-failure message);
  - `placement`: the side on which the tooltip popover is placed;
  - `tooltip`: the script that hands the tooltip text to its page;
  - `highlight`: the decisions of showing a highlight, as a step machine;
  - `models`: `AppInfo`.
- `app/` — the Tauri application: Swift FFI, Tauri commands, NSPanel
  overlays, floating-point screen geometry, serde models.
- `tests/` — tests of the library.

`app/` also needs `tauri`, `tauri-plugin-opener`, `tauri-nspanel` and the
`monitor` crate, which Cargo.toml does not name: the library and its tests
build without them.
