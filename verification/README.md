# eqterm

A Vim-first terminal music player with AutoEq headphone/IEM presets,
written as a Verus-verified library (`src/`) and a thin program around it
(`app/`).

## Layout

- `src/text.rs` — character sequences, lower-casing, decimal numerals,
  substring search and the character order used for sorting.
- `src/sorting.rs` — a stable insertion sort over integer/text keys.
- `src/util.rs` — search normalisation, clock formatting, middle truncation.
- `src/selection.rs` — filtering by search text and moving a selection.
- `src/browser.rs` — directory entries, audio-file detection, listing order,
  the folder browser.
- `src/eq.rs` — the AutoEq `ParametricEQ.txt` grammar and the mpv filter chain.
- `src/presets.rs` — preset names, ordering, the preset picker, AutoEq
  archive extraction decisions and download progress.
- `src/state.rs` — the player's state and its transitions.
- `src/keys.rs` — the key map, including the `gg` and `jk` chords.
- `src/display.rs` — what the screen says: titles, labels, hints.

`app/` holds what cannot be verified: terminal I/O (crossterm, ratatui),
the audio engine (libmpv), file system and network access, and the
floating-point formatting of times, volume and filter values.
