# rust_collector

A cross-platform forensic triage collector (rust-dfir-triage): it gathers
configured artifacts (logs, registry hives, property lists, proc entries,
files selected by patterns), volatile system data and, on Linux, process
memory, and uploads the result to S3 or an SFTP server.

## Layout

- `src/` is the library, verified with Verus. It holds the configuration
  model and its defaults, environment-variable expansion and path
  normalization, where each artifact is stored and how each platform
  collects it, pattern walks, the parsing of `/proc/<pid>/maps`, the
  selection and budgeting of process memory, the naming and summaries of
  memory output, permission-failure tracking, upload part layout, retry
  decisions and the part buffer of streaming uploads. `src/laws.rs` states
  the properties that span several functions.
- `app/` is the command-line program around the library: argument parsing,
  YAML and JSON files, file copies and helper commands, sysinfo, and the
  S3 and SFTP clients.
- `tests/` exercises the library on concrete values.
