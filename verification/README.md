# codex_tui

Verified text logic of the Codex terminal interface: the transcript cells that
record approval decisions and guardian reviews, the snippets that show a
command in them, the prompt offered after a plan is approved, the terminal
visualization instructions, and the built-in pet catalog.

- `src/` is the library, checked by Verus. Its cells are made of styled spans
  (`styled.rs`); `approvals.rs` builds the cells, `command.rs` and `text.rs`
  render and cut command text, `plan_implementation.rs`, `visualization.rs`
  and `pets.rs` hold the rest.
- `app/` turns the library's spans into ratatui spans and lines and writes
  blank spritesheets for tests.
