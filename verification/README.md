# ghostty_vt

A terminal-view library around the Ghostty VT engine, with its logic verified
by Verus.

- `src/` is the verified library:
  - `sys` models the values exchanged with the engine (result codes, style
    colors, scroll requests, device attributes, render-state colors);
  - `vt` turns the engine's answers into library values (errors, colors,
    cursor, cell styles, dirty state, titles, encoder output, the text of a
    cell), gives the values an engine read starts from, and packs modes;
  - `keys` maps key names to key codes;
  - `config` holds the terminal configuration and theme;
  - `session` holds a session's decisions (key events, cursor position, title
    flag, device attributes answer).
- `app/` holds what talks to the engine through its C interface: the
  `#[repr(C)]` bindings, the handle types (`Terminal`, `RenderState`,
  `KeyEncoder`), the session with its callbacks, and a screen dump.
- `tests/` runs the library on concrete values.
