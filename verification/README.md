# iii-mcp

An MCP (Model Context Protocol) server for the iii engine: clients see the
engine's functions as MCP tools and its state as MCP resources.

- `src/` is the verified library (Verus):
  - `json`: the JSON value model and its view;
  - `codec`: reading and rendering JSON text, by serde_json behind trusted
    wrappers whose results are named, not restated;
  - `text`: text helpers;
  - `tools`, `resources`: the tools and resources handlers;
  - `server`: the JSON-RPC types and the request router, with its
    initialization state and the history of methods it handled;
  - `transport`: what each input event (a line, the end of input, a failed
    read) leads to.

  The contracts state the results of the functions that compute something;
  the handlers' constructors and getters return field-less values and state
  nothing. The laws that span functions are proof functions beside them.
- `app/` is the program around it: command line, logging, the connection to
  the engine, the stdio read/write loop, and the serde copies of the
  library's types that give them their JSON form.
- `tests/` runs the library on concrete values.
