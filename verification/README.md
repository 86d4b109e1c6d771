# loquat

A message-processing framework for bots and agents: events grouped into
blocks and packages, nine ordered pools of prioritised workers, routing of
packages to adapters, plugin bookkeeping, structured logging and an
interactive console. The library is written in Verus; its contracts are
proved.

## Layout

- `src/` – the verified library
  - `events/` – events, metadata, target sites, groups, blocks, packages
  - `payloads/` – typed payloads, their framing as a type URL with bytes, the registry
  - `pools/` – pool types, the standard pool (workers in priority order), a batch's run
    through a pool, the dead-loop validator
  - `routers/` – channel detection and adapter selection
  - `plugins/` – plugin kinds and states, the loading policy, loaders, registry, manager
  - `logging/` – levels, context, text and JSON formatters, writer rules, file rotation, the logger
  - `repl/` – console commands, completion, the prompt, and the decisions behind
    the commands (status lines, uptime, log following, reload summary, the console step)
  - `cli.rs` – the command line
  - `text.rs`, `json.rs`, `time.rs` – strings, JSON objects, timestamps and identifiers
  - `paint.rs` – terminal colors
- `tests/` – tests of the library
- `app/` – the program: file and console I/O, the line editor, payload encoding with serde

Calls into chrono, uuid, serde_json, atty, colored and std's path and string
functions stand behind small trusted wrappers whose contracts name or state
their results.
