# aish_commit

The `commit` plugin for [aish](https://github.com/daaquan/aish): it asks the
host's model service for a commit message for the staged diff, shows it, and
commits it when `--apply` is given or the user accepts.

- `src/` is the library, verified with Verus:
  - `text` — the character-level model of text (Unicode whitespace trimming,
    line breaks, code fences) and the exec helpers over it;
  - `message` — the prompt (`build_messages`, with the diff capped at
    `MAX_DIFF_CHARS` bytes on a character boundary) and the clean-up of the
    model's reply (`postprocess`), with their laws;
  - `session` — one run of the plugin as a state machine (`Session::step`):
    every decision of the run, with its laws (consent before committing, only
    clean messages committed, request numbering, ...);
  - `editor` — choosing and launching the user's editor and turning its
    outcome into the edited message (`EditSession::step`);
  - `git` — the git command lines and how their outcome is read;
  - `protocol` — the plain message types of the plugin ABI.
- `app/` is the program: the JSON-lines framing with the host (serde), the
  terminal, git and editor processes, and the loops that perform the
  library's actions.
- `tests/` runs the library on concrete values.
