# vobes

Vobes finds the software projects on a machine ("vobes"), records what it
learns about each (language, framework, package manager, git state, tags,
notes) and keeps a timeline of what happened to them. It has a command
line (`vbs`), a Model Context Protocol server (`vobes-mcp`) and the
backend of a desktop window.

The library under `src/` is written in Verus: its functions carry
contracts (all but the clock reading and the field-less constructors,
which have nothing to promise), and the laws that tie functions together
are proved.

- `text`, `path`: string helpers and path normalization.
- `model`: ids, errors, instants, activity events, git state, vobes,
  extension points.
- `scan`: exclusion rules, the detectors and the scanner that turns a
  walked directory tree into a report.
- `config`: configuration, its defaults and where its files live.
- `activity`: an in-memory activity tracker.
- `store`: the SQL the store runs, rows and their conversions, snapshots.
- `gitstate`: git state from what a repository reports.
- `cli`, `mcp`, `desktop`: the decisions behind each front end.

`app/` is the program around it: argument parsing, the file system, the
SQLite database, git, JSON and TOML, terminal output.
