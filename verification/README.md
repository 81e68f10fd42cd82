# imbolc

The decision logic of a terminal digital audio workstation, written in Verus:
what each pane does with a key or a click, what it shows, how the transport
and the sequencer move, which notes start and stop, how voices are admitted
and stolen, in which order rack modules start, and which OSC packets set up
the server. Every function in `src/` carries a contract; Verus proves all of
them except four small wrappers around outside code (`rosc`'s message encoder,
`str::to_lowercase`, collecting characters into a `String`, and
`char::is_alphanumeric`), whose contracts are trusted:
each says in its doc comment what it claims of the call it makes.

## Layout

- `src/` — the verified library, one module per pane or subsystem:
  - panes: `piano_roll` (+ `piano_roll_view`), `mixer`, `instrument_edit`,
    `track` (+ `track_view`), `automation`, `command_palette`
    (+ `command_palette_view`), `server` (+ `server_view`), `vst_param`,
    `strip`, `add_effect`, `eq`, `midi_settings` (+ `midi_settings_view`),
    `confirm`, `save_as`, `project_browser`, `waveform`, `logo`; the `_view`
    modules and the `render` methods compute what a pane shows;
  - application: `action`, `keymap`, `navigation` (view history and global
    commands), `screen`, `session` (the mixer channels, buses, tracks and
    transport that mixer and piano-roll requests change, and the engine
    commands they give);
  - audio side: `playback`, `sequencer`, `chopper`, `voices`, `routing`,
    `osc`, `server` status and recording reports, `synthdefs`;
  - `text`: character-sequence helpers and their specifications.
- `tests/` — tests run against the compiled library.
- `app/` — a line-driven front end: reads action names, keeps the panes and
  the session, carries out the engine commands, sends OSC packets over UDP, does the real-valued parameter arithmetic, and
  draws the piano roll with ratatui.
