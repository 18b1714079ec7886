# rts_headless

Headless tooling for a real-time strategy game: batch runs for balance
testing, AI strategy execution, scenario and spawn generation, screenshot
capture and review, and an interactive JSON runner.

## Layout

- `src/` is the library, written in Verus. Every function there carries a
  contract, and the rules of the tools are proved against it: the AI's build
  order and attack decisions (`strategies`), the per-player resource ledger
  and the game-loop decisions (`game_runner`), spawn layouts and their
  pseudo-random choices (`spawn_generator`), scenarios (`scenario`), the
  capture schedule for screenshots (`screenshot`), the entity-id map and the
  answers of the interactive runner (`runner`), ordering and counting in the
  balance analysis (`analyzer`, `metrics`, `batch`), visual scoring
  (`visual_rating`, `visual_review`), terminal rendering (`ascii_visualizer`),
  army arithmetic (`balance`) and determinism checks (`determinism`).
- `tests/` exercises the library on concrete values.
- `app/` is the command-line program around it: argument parsing, file and
  terminal I/O, thread pools, serialization, the simulation engine glue and
  the computations done in floating point.

The simulation engine itself (`rts_core`, `rts_game`) is a separate part of
the game and is not included here; `app/` is written against its interface.
