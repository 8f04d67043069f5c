# texas

The decisions of the Texas editor, verified with Verus.

`src/` is the library. Each module states in its contracts what the editor
does and proves it:

- `i18n`: locale tags and preferences, message catalogs (parsed from TOML
  locale files), translation with fallbacks, `{name}` placeholders, and the
  checks that two locale catalogs agree (same keys, same placeholders) and
  that a list of keys has messages.
- `palette`, `command`, `window_tab`, `panel`: the palette kinds and how the
  input selects one, what each workbench command does to palettes, panels
  and focus, editor-tab cycling, source-control changes, "save all",
  opening paths, renaming files, key routing.
- `status`, `title`: what the status bar and the title bar show.
- `doc`, `buffer`, `style`: document kinds, which edits read-only content
  refuses, when a save reply marks a document pristine, revisions of edits,
  autosave, sticky headers, the proxy's buffers (loading, edits, saving rules), and
  the highlighting styles of a line.
- `rpc`, `watcher`: reading a JSON-RPC line (parsed with `serde_json`) into
  a response, request or notification, IPC lines, pending requests, message
  framing, where proxy notifications go, and which file watches an event goes
  to.
- `grammars`, `config`, `workspace`: grammar releases and their assets,
  editor settings, theme errors, the workspace name.
- `text`, `path`: string helpers, and the path operations of the standard
  library that the rest relies on.

`app/` is the host side: environment variables, files, threads, `notify`,
reading lines and turning JSON values into typed messages, archives, and the
floating-point line height.

`tests/` runs the library on concrete values.
