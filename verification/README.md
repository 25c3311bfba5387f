# oh-my-macro

A small desktop macro helper for StarCraft: Remastered (1920x1080), with its
decisions written in Verus and proved against their contracts.

## Layout

* `src/` — the verified library.
  * `macros`, `engine` — the two build macros and their executor, a state
    machine that gates every event and releases whatever it pressed.
  * `colony`, `colony_run`, `colony_limited` — the row-build planner and the
    row-build run (F6/F7) as a state machine, with the ten-drone cap of the
    single-row modes.
  * `building_action`, `building_run`, `building_vision`, `spire_vision`,
    `stargate_vision` — the Spire/Stargate action: one capture, a verified
    click per detection, `A` only after a confirmed selection panel; and its
    scan-only pass, which injects nothing and never reports "none found" for
    a capture it cannot trust.
  * `vision`, `frame`, `play_area`, `png_decode` — the selection HUD reader,
    the placement preview detector, frames, the calibrated play area, and
    PNG bytes to a frame (decoded by the `png` crate).
  * `vacant_colony`, `vacant_run` — the saved-view (F4) Colony search: the
    candidate grid, the scene comparison and the fresh-preview check, and
    the search itself as a state machine that clicks only a twice-confirmed
    green preview and touches the next drone only after the ordered one was
    seen starting to morph.
  * `config`, `hotkey`, `runner`, `ui_text`, `font`, `input`, `text` —
    settings and their validation, hotkey bindings and their transactional
    registration, the hotkey routing, the Korean/English texts, and helpers.
* `app/` — the program around it: the loops that perform what the state
  machines ask (input, captures, sleeping, the clock), the worker thread,
  TOML handling, reading PNG files, and the floating-point template
  matcher.
* `tests/` — tests of the library, run against fake adapters.

The only calls into an outside crate that the library makes are the two
`png` decoder calls in `png_decode`; their contracts (an uninterpreted name
for what the decoder answers, and the colour-type codes `png::ColorType`
uses) are trusted, everything built on them is proved.
