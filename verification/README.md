# gorkforge

The core of a self-building coding agent, written in Verus: the rules the
agent follows are proved, and the work it does on files, processes and the
network is left to a thin program around them.

## Layout

- `src/` — the verified library.
  - `text` — character-level string operations (search, trim, words,
    lines, replace, decimal numbers, lexicographic sort) with specifications
    that match `str`'s behaviour.
  - `agent`, `platform`, `core_agent`, `subagent`, `remoteagent`,
    `orchestrator`, `desktop`, `headless`, `web` — task records, the agent,
    orchestrator and platform interfaces, and the stub implementations.
  - `config`, `policy` — the API key choice and the tool-permission policy.
  - `components`, `sandbox` — paths compared component by component, the
    overlay layout, path joining, and the commit and push steps.
  - `args`, `catalog`, `tools`, `gh`, `gates`, `syntax` — the tools: their
    catalog, argument checks, permission and approval rules, command
    planning, the cargo gate state machine, and Rust declaration summaries.
  - `llm`, `reply`, `reasoner` — request shaping, retry decisions, turning
    a completion reply and its tool-call arguments into a turn, and the ReAct
    loop and self-improvement cycle as state machines.
- `tests/` — tests of the library on concrete values.
- `app/` — the command line, file and process I/O, the HTTP client, and the
  drivers that run the library's state machines.
