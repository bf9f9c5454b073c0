# skill-bench

A TOML-based test runner for agent skills (nextest-style): it discovers test
cases, runs each in a fresh workspace through the agent CLI, and checks the
session log and the workspace against the case's assertions.

## Layout

- `src/` is the verified library: the runner's logic, with contracts proved
  by Verus. Floating-point formatting (durations, real numbers read from a
  database) and what the operating system reports (a process's exit status)
  are done in `app/` and handed to it as text:
  - `assertions/`: the check types over a session log (skills, MCP servers and
    tools, tool parameters, log and message text) and over what was observed
    in the workspace (files, directories, databases); `deny` handling, and the
    probe each check needs.
  - `runtime/`: the glob pattern and the filters of discovery, the selection
    of the tests to run, the agent's command line, the harness plugin's
    answers, and `TestRun`, the state machine of one test's run.
  - `models/`, `state/`: test results and their summary, the failure history
    and the tests that `--rerun-failed` selects.
  - `output/`, `reference.rs`, `timeline.rs`: the text of the reports, of
    `help` and of the timeline.
  - `json.rs`, `pattern.rs`, `text.rs`: what the logic reads of JSON values and
    regular expressions (through `serde_json` and `regex`), and text helpers.
- `app/` is the program: the command line, reading and writing files, running
  setup scripts and the agent, the thread pool, and printing.
- `tests/` runs the library on concrete values.

## Running

The agent CLI's executable is named by the `SKILL_BENCH_AGENT` environment
variable; the harness plugin's source directory by `SKILL_BENCH_HARNESS`
(by default `src/assets/harness-plugin`).
