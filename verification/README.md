# skillberry_praxis_filters

Request filters for the [Praxis](https://github.com/praxis-proxy/praxis) proxy that give a
language model the tools of a skill. The library is written in Verus: what each filter does with
a request is stated in contracts and proved.

| Filter | What it does |
|--------|--------------|
| `context_extractor` | Takes values out of request headers, checks them and puts them into the metadata |
| `skill_resolver` | Finds out the request's skill, from the environment or from the skill store |
| `vmcp_manager` | Creates a virtual MCP server for the request and fetches the server's tools |
| `mcp_tools_enricher` | Injects the tools into the bodies of chat completion requests |

The filters work in this order, and hand on what they find out in the request's metadata.
`src/chain.rs` states what holds of them together.

- `src/` is the library. A filter that has to wait for the environment, the store or a server is a
  step function: from a state and what happened to the next state and what is to be done.
- `app/` runs the filters in the proxy: it reads their settings, the environment and the clock,
  and talks to the store and to the servers.
- `tests/` runs the library on concrete requests.

The functions of `serde_json`, `http`, `regex` and `bytes` that the library calls are not
verified. What is taken on trust of each of them stands in `src/json.rs`, `src/headers.rs`,
`src/status.rs`, `src/pattern.rs` and `src/body.rs`.
