# tg_mcp_server

A Telegram (MTProto) MCP server whose decisions are proved correct with Verus.

- `src/` is the verified library. It holds the request and output records of the MCP
  tools (`tg_structs`), the plain-value model of what the server reads from Telegram
  (`peer`, `comments`, `participants`), the bounded walk over message and member
  histories (`collect`), the failures and their texts (`errors`), text helpers
  (`text`), the sign-in exchange with Telegram (`login`), the choice of peers a search
  returns (`search`), the command-line choices (`config`) and the laws that tie these together
  (`laws`).
- `app/` is the program around it: the command line, the configuration file, the
  Telegram client (grammers) and the MCP transports (rmcp over stdio or streamable
  HTTP). It fetches from Telegram, turns what it gets into the library's records, and
  lets the library decide what to ask next and what to answer.
- `tests/` runs the library on concrete values.
