# opus-mcp

A gateway in front of a server that delegates reflection to a model over MCP. It
checks the bearer token of each request, refuses the tools that the token does not
open before anything is sent, and hands the rest on with the name of the client.

The service is given by its slug, which makes its scopes (`<slug>:lecture`,
`<slug>:ecriture`), its addresses and the names under which it and its static client
are known. It has one tool that reads, `opus_health`, and two that write,
`opus_think` and `opus_session`; any other name is refused under any scopes.

## Layout

- `src/` is the library, verified with Verus. It decides:
  - `policy`: which tool a client may call and which it sees,
  - `auth`: who is admitted,
  - `handler`: what is answered here and what goes on,
  - `forward`: what is sent to the upstream and what reply is made of what comes back,
  - `router`: what the service is assembled from,
  - `boot`: settings and the static token at start-up,
  - `service`, `names`, `text`, `wire`: the values that the others work on.
- `app/` is the program: it reads, sends and serves, and asks the library what to do
  next. It needs the crates of the MCP framework besides those in `Cargo.toml`.
- `tests/` runs the library.

The functions that decide on a request take what the program has found out and return
what it does next; their contracts give that step exactly, and the `law_*` proof
functions say how a whole request ends.
