# minicode

The terminal user interface logic of the minicode coding agent, written in Verus: each
public function states what it returns in `requires`/`ensures`, and Verus proves it.

The library holds the state machines, filters, parsers and text layout of the interface,
and the content of every modal dialog as styled lines whose text and colour roles the
contracts state: the provider, model, theme, stack, undo, git diff and help pickers, the
`/commands` catalog, the `/settings` modal, the blocks warehouse, the code explorer, the
architecture audit, the theme and animation picker, the context diagnostics, the process
monitor's table, details card and telemetry tab, the session browser and history list,
the permission approval dialog, the exit, streaming, configuration-change and workspace
dialogs, the `/power` modal and the slash command palette. Figures that are floating point (CPU load, memory, percentages, kilobytes,
instability, tool time) reach the library already formatted, and so do the session
store's shortened identifiers and response snippets.

Layout:

- `src/text.rs`, `src/json.rs`: character-sequence helpers (trimming, searching, splitting,
  decimal digits, lines) and the JSON field lookup, with their specifications.
- `src/tools/`: URL safety checks before a fetch (blocked hosts, private and mapped
  addresses, resolved addresses) and the web search pieces: query preparation, provider
  order, response and result-page parsing, URL decoding, result formatting and the result
  cache with its expiry.
- `src/ui/`: the input dock (slash command palette, pasted blocks, line wrapping, key
  handling), the markdown renderer, the approval dialog, the diff viewer, the terminal
  drawer, animations, the configuration wizard's decisions and the `.env` update, and
  `src/ui/modals/` with the state machines of the modal dialogs (blocks warehouse,
  processes, settings, mini power, context diagnostics) and their filters. The lines of
  the dialogs: `src/ui/modal_view.rs` (the pickers of `ModalState`),
  `src/ui/approval_view.rs`, `src/ui/session_view.rs`, `src/ui/palette_view.rs`, and
  under `src/ui/modals/` `command_catalog.rs`, `settings_view.rs`, `blocks_view.rs`,
  `explorer_view.rs`, `architecture_view.rs`, `theme_select.rs`, `context_view.rs`,
  `processes_view.rs`, `process_table_view.rs`, `dialogs_view.rs`, `workspace_view.rs` and
  `minipower_view.rs`. `src/ui/styled.rs` is
  the styled-line model they produce.
- `app/`: the input and output around the library: terminal key events turned into the
  library's key values (`input.rs`), drawing the modals with ratatui from the
  library's lines (`render.rs`, `modal_render.rs`, `dialog_render.rs`), the live
  activity line's shimmer (`animation.rs`), the clipboard escape sequence, HTTP
  search requests, DNS resolution before a fetch, and writing the `.env` file.
- `tests/`: tests of the library on concrete values.
