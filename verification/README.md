# pokeemerald-rs session logic

A Verus-verified library holding the decisions of a Pokemon Emerald engine
that do not depend on its asset, battle, text or rendering crates:

- `route103_rival`: starter encoding and the Route 103 rival selection.
- `game_save`: boot classification of the save, serial-counter ordering,
  and the write rules (stale sessions, overwrite consent, base lineage).
- `wild_encounter`: which landings roll an encounter, and the per-map
  screen of a land table against what the battle engine can fight.
- `wild_battle`: the overworld's party-lead and wild-battle slots.
- `white_out`: the party heal and money halving of a lost battle.
- `intro`: the introduction's speech pages, its page and glyph state, and
  its pacing table.
- `frame`: packing RGB pixels into the platform's pixel words.
- `pack_path`, `import_error`, `import_rom`: where an imported pack goes
  and the step-by-step protocol that writes it atomically, with every path
  kept as the platform's own encoded bytes, and the temporary file's name.
- `main_menu`: what a confirmed main-menu item launches.

`src/` is the verified library, `tests/` its tests, and `app/` the file
system, environment, save-store, printer and battle-engine I/O around it.
