# Unsteel Chez

A small side-scrolling platformer: the hero fights goblins and the Gobloron
boss with fart clouds, picks up soap, and dodges lasers. Levels are edited
with a built-in editor and stored as plain text map files.

## Layout

- `src/` is the verified library: the discrete state and the decisions of
  the game, each function with a contract proved by Verus.
  - `boss` – the boss's eye and nipples: hit points, cool-down, warm-up and
    firing cycles, the events one frame raises.
  - `player` – the player's health and fart meters, projectile lifetimes.
  - `critters` – goblins and soap bottles.
  - `contact` – which touched entity counts when an entity looks around.
  - `frame` – the per-frame event dispatch, spawning and despawning.
  - `flow` – the screens after a win, a death and the boss's defeat.
  - `map_data`, `text` – the map file format: writing and reading records.
  - `map_edit` – the editor's place modes and input rules.
  - `assets` – which files of an asset folder are loaded, under which name.
  - `chance` – random draws, through `rand`.
- `app/` is the program around it: the window, drawing, sound, input,
  file access and all geometry on `f32` coordinates (macroquad).
- `tests/` runs the library on concrete values.
