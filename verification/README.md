# rs_fast_mcp

A framework for building MCP (Model Context Protocol) servers, split in two:

- `src/` — the library, verified with Verus. It holds the decisions of the
  server: the tool registry and its duplicate strategies, visibility and tag
  filtering, request routing, the stdio transport's handling of each line,
  response caching, the background task table, namespacing of mounted
  components, authentication checks of the bundled providers, configuration
  parsing, and the JSON text and media helpers. Contracts state what each
  public function returns; where an outcome rests on the clock (cache
  expiry, token expiry) they state what holds of every outcome. The laws of
  the library are proof functions next to the code they speak of (`law_*`).
- `app/` — the runtime around it: serde forms of the wire types, the stdio
  and HTTP transports, async middleware, the HTTP calls of the
  authentication providers, the background worker, configuration loading and
  logging.
- `tests/` — tests of the library on concrete values.

Calls into outside crates (`dashmap`, `lru`, `strsim`, `url`, `base64`,
`mime_guess`, `uuid`, `jsonwebtoken`, `jsonschema`, `serde_json`) are made from the library
through small wrappers whose contracts say what the crates document; each is
marked `#[verifier::external_body]` and its doc comment names the function it
calls.
