# heimdall

A command-line tool that bootstraps Linux hosts (admin user, Docker, k3s, Flux,
NetBird, Infisical Agent, Komodo). Each workflow resolves its inputs, builds an
ordered plan of operations, runs the plan (or only reports it in a dry run),
and prints a human or JSON report.

## Layout

- `src/` — the library, verified with Verus. Every workflow's decisions live
  here: input resolution from flags, environment and saved state; the plans
  (with their exact commands, environments and file contents); the executors
  that walk a plan through a `CommandRunner`; the report formatting. Contracts
  state the plans and texts exactly over `Seq<char>` views, and `law_*` proof
  functions state the invariants that hold across inputs (for example, that a
  run which stopped early reports a failure, or that the Infisical systemd unit
  starts the agent with the configuration file the plan writes). The runner and
  file-writer traits carry a permission (`may_run`, `may_write`) and a relation
  between a call and its possible outcomes (`outcome_possible`,
  `write_possible`): executor contracts ask permission only for the calls a run
  makes (none in a dry run, none for unconfirmed risky steps) and tie each
  reported status to a possible outcome of that step's call.
- `src/json.rs` and `crate::text::char_is_alphanumeric` are the only places
  that call outside code (`serde_json`, `char::is_alphanumeric`); their
  contracts are trusted.
- `tests/` — unit tests run against the compiled library.
- `app/` — the executable: command-line parsing (clap), prompts (inquire),
  environment variables, files, subprocesses, configuration YAML and JSON
  output.
