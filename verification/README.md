# game

The rules of a top-down action-adventure (sword, shield and dash; enemies
and a boss; puzzles, dungeon rooms and keys; pickups, bombs and the
boomerang), written in Verus with their contracts proved.

- `src/` is the verified library. Every world quantity it decides on is an
  integer: energy in tenths, style in 1/180ths, beam travel in tenths of a
  pixel, boxes in sub-pixels. Content data (tile ids, flag ids, room and
  puzzle layouts, tuning the content supplies) comes in as parameters.
  Laws that span several functions are public proof functions
  (`lemma_*`) next to the functions they speak of.
- `app/` is the front end glue that Verus does not see: float vectors and
  facing, the fade overlay, the save file (serde / serde_json), and the
  float-to-integer conversions that feed the rules.
- `tests/` runs the library on concrete values.

Randomness comes from `fastrand`; the two calls the rules make stand behind
small trusted wrappers in `src/dice.rs`.
