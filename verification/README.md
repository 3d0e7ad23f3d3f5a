# Ages of Aether

The rules of a tower-defense game, verified with Verus: the level, wave, enemy, tower,
hero and upgrade tables; the wave state machine; the economy of building, upgrading,
specializing and selling towers; lives, victory and star ratings; the save and the
progression it unlocks; the tutorial's step machine.

- `src/` — the verified library. `data.rs` holds the game's tables with their laws,
  `resources.rs`, `components.rs` and `states.rs` the game state, `save.rs` the persistent
  progress, `ui.rs` the decisions behind the buttons and menus, and `systems/` the
  per-frame rules (waves, combat bookkeeping, game over, tutorial, specialization).
- `tests/` — tests of the library on concrete values.
- `app/` — a headless terminal front end on bevy: it reads commands, keeps the float
  clocks and positions, and runs the fighting (enemy movement, tower hits and their
  elemental effects, golems, the hero and its abilities, the player's meteor and
  reinforcements), while the library decides the waves, the economy, the tutorial, the
  outcome and the progress; it also runs the upgrade shop, and reads and writes the save
  (a JSON file, or `localStorage` on the web).
