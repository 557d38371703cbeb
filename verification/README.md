# yach_backend

The decision logic of the yach native backend, verified with Verus: the
permission engine that decides whether a tool call, shell command or edit
may run; the budget of the provider tool loop; how provider context is
rebuilt from a session log; how each tool call of a batch is executed,
recorded and reported; and the labels, status lines and session views the
runner shows its client.

## Layout

- `src/` is the verified library. Every executable function carries a
  contract; the `law_*` proof functions state properties that span
  functions (for example that an incomplete earlier turn adds nothing to
  provider context, or that every turn the runner starts gets a fresh
  index).
- `tests/` runs the library on concrete values.
- `app/` is the I/O around it: session files on disk, the stored approval
  mode, the serialized form of permission evidence, the process-wide
  decision counters, the hooks an embedding program supplies, the loop
  that performs the library's decisions on client events, and the drivers
  that answer prompts without a provider and run a compaction.

Calls into `serde_json`, `shell_words` and `std::path` that the library
needs are made behind small trusted wrappers whose contracts name what the
call returns.
