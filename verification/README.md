# kissabot

A chat-bot framework for the Satori protocol, written in Verus.

- `src/` is the verified library: the Satori resources (`satori::resources`),
  the adapter API traits (`satori::api`), Satori events (`satori::event`,
  re-exported with replies in `event`), the platform-neutral topic layer
  (`topic`), the first plugin interface (`kissa`), and the lines that the Lua
  log functions write (`logging`).
- `tests/` runs the library on concrete values.
- `app/` is the host program: logging, the Lua environment, the event bus,
  the adapter registry, and the serde forms of the library's data.

The plugin runtime (the `kokoro_neo` context, its observers, and the
`Plugin`/`Unplug` Lua globals that load plugin libraries) is not part of this
build: `kokoro_neo` is not available. The host's dispatch loop therefore only
watches for the stop signal.
