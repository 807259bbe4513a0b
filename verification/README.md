# metalctl

A small, synchronous client and command-line tool for the Hetzner Robot
(bare-metal) API, with its core written in Verus and proved against its
contracts.

## Layout

- `src/` — the verified library.
  - `form` — form encoding of request bodies, with the round-trip laws.
  - `credentials` — credentials, their resolution order (flags, environment,
    config file), the `Authorization` header, redacted renderings, the config
    file location, permission check and schema.
  - `client` — request construction, status checking and error messages, the
    retry policy as a state machine with its laws.
  - `json` — a model of parsed JSON documents and the lookup of a Robot API
    error message in one.
  - `api` — the request each endpoint sends; endpoints whose answer carries
    no data are performed in full.
  - `cli`, `output`, `mcp` — the decisions of the command-line tool and of the
    MCP server: which commands are destructive, how they are confirmed, what
    is printed.
  - `transport`, `error`, `text` — the transport interface, the error type and
    string building blocks.
- `app/` — the program around the library: argument parsing, environment and
  file access, the HTTP transport, the retry loop (which sleeps), JSON
  decoding of answers, and the MCP server over stdio.
- `tests/` — tests of the library, using an in-memory transport.

Run as `metalctl-mcp` (for example through a link), the program serves the
Model Context Protocol over stdio instead of the command line.
