# GBFRER Summon Drop Picker, verified core

The library behind a picker that forces which Infinity-boss summons drop in
*Granblue Fantasy: Relink*, and with which skill and equip bonus, by re-weighting the
game's `summon_lot.tbl`. Its logic is written in Verus and proved against contracts.

- `src/table.rs` – the byte layout of `summon_lot.tbl` (8-byte header, 20-byte
  little-endian rows) and the two in-place edits: forcing a pool's weights and
  repointing a pool's level curve.
- `src/hexid.rs` – ids written as hexadecimal text.
- `src/json.rs` – parsing settings files with `serde_json` and reading their members.
- `src/data.rs` – the eight summons and eleven equip bonuses.
- `src/patch.rs` – the picks and the patch of the whole table, with the proof that every
  summon is forced at once.
- `src/settings.rs` – saving picks by name, reading them back, and the start-up state.
- `src/reloaded.rs` – the requirement report and Reloaded-II/game detection.
- `src/status.rs` – what follows each action, the messages shown, and the requirement banner.
- `app/` – the egui window, file and process work; it embeds the shipped tables, icon
  and mod manifest from `base/`, `vanilla/`, `assets/` and `dist/`.
