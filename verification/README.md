# idgafcord

The decision logic of a lightweight desktop client that wraps Discord's web interface,
written in Verus and proved against its contracts.

- `src/settings.rs` — the native settings, their defaults and their model.
- `src/tray.rs` — the tray menu: check items, commands, clicks and the safe restart.
- `src/native.rs` — requests that the page sends by navigating to `idgafcord://native`.
- `src/host.rs` — closing, reloading, start-up, browser flags and update-check reporting.
- `src/scripts.rs`, `src/page_script.rs` — the scripts evaluated in the page.
- `src/labels.rs` — tray labels in Turkish and English.
- `src/text.rs`, `src/json.rs` — string helpers and JSON string literals (serde_json).
- `src/laws.rs` — properties that span several operations.
- `app/` — the Tauri host that performs what the library decides (windows, tray, plugins,
  files, update downloads).
