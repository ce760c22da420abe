# agentic_rust_mcp

An MCP (Model Context Protocol) tool server for agent pipelines, with four
tools: `agency_pulse` (Render and Vercel deployment health),
`content_check` (Buffer queue), `data_vault` (Firestore leads) and
`send_gmail` (Gmail SMTP), plus a demo mode that answers every tool with
fixture data.

- `src/` is the library, verified with Verus: the decisions of each tool
  (`pulse`, `content`, `vault`, `mail`), demo mode (`demo`), endpoint and
  header text (`endpoints`), JSON-RPC 2.0 routing and responses (`rpc`) and
  the rules of the web demo (`web`).
- `app/` is the program around it: environment, HTTP queries, SMTP,
  serialisation, the stdio JSON-RPC loop, and (with the argument `web`)
  the public HTTP demo, which starts only with `DEMO_MODE=true`.
- `tests/` runs the library on concrete values.
