# gpui_libghostty

Verified core of a GPUI terminal component rendered by Ghostty's native
surface, and of an embedded Neovim editor hosted in that terminal.

- `src/` (verified with Verus): modifier and button encodings (`input`), the
  macOS key-code table (`keymap`), key-event dispatch and spawn checks
  (`terminal`), the surface's frame/visibility/focus decisions (`surface`),
  Neovim command and expression construction and the remote-request retry
  policy (`neovim`), string helpers (`text`), and the renderer wake-up
  channel (`wakeup`).
- `app/`: GPUI entities, the native surface's C interface, and process
  spawning; these carry out the decisions made in `src/`.
- `tests/`: tests of the library.
