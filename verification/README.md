# tin

tin keeps the reasoning behind a project across compaction and new agent
sessions. It records paths and how stale each one is, never the contents of a
document; the agent writes and reads the notes.

The decisions are a Verus-verified library under `src/`:

- `paths`: what a path is shown as, which names stay inside the project, where a
  session's save reminder is recorded, which directory holds a project.
- `staleness`: the line that says how long ago a document was written.
- `usage`: the "Context N% used" figure a transcript records, as the Codex
  status line shows it.
- `config`: the checks a configuration's documents must pass.
- `hook`: what each Codex hook replies, and the entry SessionStart,
  UserPromptSubmit and `tin status` hand back.
- `packaging`: release asset names, the host triple, the archive format and
  the version check.
- `laws`: properties that span these functions, proved.

`app/` is the `tin` program: command line, reading and writing files, TOML and
JSON at the edges. It gathers what the disk says as plain values and hands them
to the library.
