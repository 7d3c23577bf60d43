# herdr

Lifecycle reports from a coding agent to [Herdr](https://herdr.dev), a terminal
multiplexer for coding agents. An agent that runs in a pane of Herdr tells it
over a local socket whether it is `idle`, `working`, `blocked` or `done`, and
under which native session id the pane can be resumed.

`src/` is the library, verified with Verus. It does no I/O.

- `state.rs`: the four states and their words.
- `text.rs`: trimming and comparing texts.
- `environment.rs`: Herdr's variables, and when they switch reporting on.
- `registry.rs`: which pane and socket a session reports to.
- `wire.rs`: the JSON requests and the lines that carry them. The JSON text
  itself is written by `serde_json`.
- `lifecycle.rs`: what each lifecycle event reports.
- `laws.rs`: what holds across calls.

`app/` is the transport around it: it reads the process environment, keeps the
registry of the process and writes to the Unix domain socket. No installation
step is needed; the variables that Herdr injects into its panes (`HERDR_ENV`,
`HERDR_SOCKET_PATH`, `HERDR_PANE_ID`) switch it on.

An event is answered with a plan, a list of actions. The caller performs them
one by one, each with the registry and the environment as they are at that
moment, and sends what comes out before it goes on:

```jsonc
{"id":"jcode","method":"pane.report_agent","params":{
  "pane_id":"w1:p1","source":"herdr:jcode","agent":"jcode",
  "state":"working","message":"building docs"}}

{"id":"jcode","method":"pane.report_agent_session","params":{
  "pane_id":"w1:p1","source":"herdr:jcode","agent":"jcode",
  "agent_session_id":"<session id>"}}
```
