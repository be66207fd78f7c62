# ga4-mcp

A Model Context Protocol server for Google Analytics 4. It offers tools that read accounts,
properties, metadata and reports, and a scratchpad in which report rows can be queried with
read-only SQL.

## Layout

- `src/` is the library: the rules of the server, verified with Verus. Every public
  function states in its contract what it returns, but for `contract::elapsed_ms`, which tells
  what the clock shows. Strings are `Seq<char>`, JSON values are `Tree`s, and errors
  are `Problem`s in contracts.
- `app/` is the program around it: command line, environment, HTTP, the Google client, the
  DuckDB sessions and the MCP service. It hands plain values to the library and does what the
  library plans.
- `tests/` runs the library on concrete values.

| Modules | What they hold |
| --- | --- |
| `text`, `json`, `json_text`, `templates` | texts, JSON values, their writing and reading |
| `error`, `contract` | errors, and the envelope that every tool answers with |
| `config`, `http_config`, `http_runtime`, `server` | settings, and what they allow |
| `auth_login`, `auth_report`, `auth_tools`, `auth_ux`, `shell` | credentials and login commands |
| `ga_client`, `ga_payload`, `ga_calls` | names, payloads and calls of the Google APIs |
| `report_args`, `report_checks`, `filters`, `dates` | arguments of the tools and their rules |
| `cursors`, `query_hashes` | query hashes, pages and cursors |
| `tabular`, `funnel`, `compatibility`, `preview`, `report_tools` | reports and their answers |
| `ingest`, `sql_text`, `sql_safety`, `release_sql`, `duck_values` | the scratchpad's rows and SQL |
| `scratchpad_query`, `scratchpad_tools`, `session_limits`, `memory_pressure` | the scratchpad's tools and limits |

Functions named `law_*` state what holds of several functions together.

## What is trusted

Verus takes the contracts of a few wrappers as given: `serde_json`'s reading and writing,
`reqwest::Url::parse`, `ipnet`'s reading of a network, and of the standard
library its clock, the `{:?}` form of a string, `String::push`, `String::from_utf8_lossy` and
`str::parse::<i64>`. The comment above each says what is claimed of the function it calls.
