# wezterm

A verified model of a terminal emulator.

`src/` is the library. Every function in it is verified with Verus, but for the seven
wrappers in `outside`, `hyperlink` and `codegen` that call other crates.

- `terminal` is the terminal: `TerminalState` holds the screens, cursor, selection,
  viewport and modes; `Performer` performs the actions that a program asks for;
  keys and mouse events go through `key_down` and `mouse_event`. `terminal::model`
  says what each operation makes of the state, as a mathematical value, and
  `terminal::laws` what holds of the terminal as a whole.
- `screen`, `line`, `cell`, `attributes`, `selection`, `tabs` and `storage` are what
  the terminal is made of.
- `escape`, `input` and `host` are what goes in and out: the actions, the keys and
  mouse events, and what the embedding program is to do next.
- `write` is a write that keeps going until everything is written.
- `window` has the traits of windows and of what is painted in them.
- `codegen` makes the source of the tables of emoji variations and character widths.
- `outside`, `hyperlink` and `codegen` call other crates, for the width of characters
  and the bounds of words, for regular expressions, and for perfect hash maps. What
  they rely on is stated at each call.

The library does no I/O. Operations return a `HostAction`, which the embedding program
carries out; `app/host.rs` does so.

`app/` prints the tables (`app/main.rs`), drives a terminal for a host, and has copies
of the stored lines that can be saved with serde.
