# codex-pal (verified core)

`codex-pal` launches Codex CLI through `codex-relay` for OpenAI-compatible
providers, using named profiles.

- `src/` is the library, verified with Verus:
  - `provider` — built-in providers, their upstreams, key variables and model catalogs;
  - `codex` — approval/sandbox settings, the Codex argument vector and environment,
    the model catalog entries built on Codex's bundled model template;
  - `relay` — relay metadata, the reuse/start/refuse decision, the relay's command
    line, status and stop decisions, PID files, relay URL normalization;
  - `config` — saved profiles kept sorted by unique names, with a default;
  - `cli` — profile commands (`config` with `--show` and `--reset`),
    profile-to-launch-option merging, local or remote (`--relay-url`) relays,
    setup hints, listings, shell quoting and how a shell reads it back;
  - `text`, `toml_value`, `error` — string operations, JSON/TOML literals, messages.
- `app/` is the program: clap argument parsing, files, processes, sockets and
  printing. It asks the library what to do at each step: for the model catalog
  it runs `codex debug models --bundled`, hands the output to the library, which
  parses the template and builds the entries, and writes the result to a file.
- `tests/` exercise the library on concrete values.
