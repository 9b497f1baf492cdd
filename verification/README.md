# acp-agent-cli

A command-line client for ACP (Agent Client Protocol) agents: it runs
prompts against agents, keeps an Active Context, manages a background daemon
that holds agent sessions, renders structured and man-like help from a
command plan, and installs agents from a registry.

## Layout

- `src/` is the verified library. Verus proves every function in it against
  its contract; the few calls into std and chrono that it cannot read stand
  behind small trusted wrappers whose contracts say what those functions do
  (the clock read for installation times promises nothing):
  - `plan`, `cli`, `args`: the command plan, global-flag handling, parsing of
    planned commands, routing decisions;
  - `help`: structured help documents and their plain-text rendering;
  - `context`: runtime directories and the Active Context;
  - `invocation`: the checks an invocation makes, the errors it answers and
    the envelopes of planned commands;
  - `daemon_turn`: the steps of one `run` request served by the daemon;
  - `daemon`, `sessions`: daemon state, the lifecycle state machine, the RPC
    answers and the session table the daemon keeps;
  - `acp`, `repl`: the agent client's decisions and the console's commands;
  - `registry`: search, listing, installation and update planning;
  - `output`, `text`, `keyed`: result framing, string helpers, keyed lists.
  Public proof functions named `law_*` state properties that hold across
  calls.
- `app/` is the program around the library: argument parsing, files,
  sockets, processes, the line editor, HTTP downloads and serialization.
- `tests/` exercises the library on concrete values.

## The command plan

The command tree, help texts and daemon contract come from a YAML command
plan. The program reads it from the file named by `ACP_AGENT_CLI_PLAN`, or
else from `cli-plan.yml` next to the executable; a plan file has to be
installed alongside the binary.
