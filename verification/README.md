# poe_graft_core

The decision core of an over-roll guard for Path of Exile crafting, verified with Verus. The human
taps a Trigger Key once per roll; the program injects one Shift+left-click and one `Ctrl+C`, reads
the item, and the moment the Target Mod lands in tier it refuses the next press.

## Layout

- `src/` — the verified library.
  - `item.rs`, `verdict.rs`, `pool.rs`, `number.rs`, `text.rs`: the Item Text parser, the hit test
    and the tier data, each with a contract equal to a spec function.
  - `cycle.rs`, `wording.rs`: the Craft Session as a state machine (`handle` equals `step`) and
    every message it writes.
  - `keys.rs`, `host.rs`, `wire.rs`: what the keyboard hook, the executor and the command surface
    decide.
  - `laws.rs`, `descriptions.rs`: the properties that hold over every reachable session and every
    Item Text, proved.
- `tests/` — the behaviour tests, run against the compiled library.
- `app/` — the program around the library: the Win32 hook and injection, the clipboard, the log
  file, loading the tier data, and the floating-point odds shown to the human.
