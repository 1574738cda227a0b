# chip_eight_debugger

The state and the rules of a CHIP-8 debugger, verified with Verus.

- `src/` is the library: the debugger's state (`ApplicationState`), the update rules
  (stepping, breakpoints, keypad, quirks, program loading, program picker, panes), and the
  decisions behind each view (program listing, metadata, keypad, screen pixels, game list).
  Each public function states in its contract what it computes; where it goes through the
  toolkit's pane grid, the contract speaks of the grid's panes, layout order and maximized
  pane as `src/pane_grid.rs` names them. `src/laws.rs` proves the properties that relate
  several operations.
- `app/` is the window around it: the `iced` toolkit, the `chip-eight` emulator core that
  runs the program, file and network I/O. It hands the library plain values and performs the
  actions that the library decides.
- `tests/` runs the library on concrete values.
