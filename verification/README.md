# aihack

A rule engine for a NetHack-style roguelike, written in Verus. Every rule is
an executable function whose `requires`/`ensures` contract states what it
returns for each input, and Verus proves the code against it.

## Layout

- `src/` — the verified library.
  - `rng`, `num`, `text`, `game_log`: the seeded random stream (modelled as a
    state and the draws it yields), integer helpers, text building and the
    bounded message log.
  - `domain/`, `data/`, `world.rs`, `ids.rs`, `error.rs`: the game's data
    model — tiles and maps, entities and their store, inventory letters,
    levels, hunger, item and monster templates — and the content registry
    (record validation, sorted lookup, dice parsing, content hash).
  - `trap*`, `lock*`, `door_ext`, `dig_phase50_ext`, `engrave*`, `fountain`,
    `sit`, `altar_ext`, `music_ext`, `region*`, `light*`, `vision*`,
    `teleport`, `search`, `detect_ext`, `dbridge_ext`, `liquid_damage_ext`,
    `environ_phase101_ext`, `hazard_phase104_ext`, `timeout_phase91_ext`:
    the rules of each dungeon feature and effect.
  - `stairs.rs`, `level_change.rs`, `vision_update.rs`: the decisions taken
    when the hero climbs stairs or changes level and when sight is updated.
  - Laws that span several functions are public proof functions next to the
    functions they speak of (for example `domain::map::write_then_read`,
    `domain::entity::spawned_entity_is_found`,
    `vision::memory_survives_recalc`).
- `tests/` — tests run against the compiled library.
- `app/` — the program around it: reading the TOML content files, the
  serde copies of the content records, and the few rules that work on
  floating-point numbers.
