# acp-agent

Installs, discovers, and runs agents of the Agent Client Protocol from the public registry. The
library in `src/` is written in Verus: what the program decides is stated in contracts and proved.
The program in `app/` performs the operations that the library asks for and hands the outcomes
back.

## Layout

| Place | Contents |
| --- | --- |
| `src/registry.rs` | The registry: validation, lookup, search, platforms. |
| `src/commands/` | The command line, and what `list`, `install` and `run` do. |
| `src/runtime/` | Commands that start agents, processes, archives. |
| `src/runtime/transports/` | TCP, Unix domain sockets, HTTP/2, WebSocket frames, JSON-RPC. |
| `src/archive/` | The archived `run` and `serve` commands, with an error for every way to fail. |
| `src/text.rs`, `src/utf8.rs`, `src/bytes.rs`, `src/path.rs`, `src/environment.rs` | The values the rest is stated over. |
| `tests/` | Scenarios on concrete values. |
| `app/` | `main`, the network, the file system, processes. |

## The local cache

`install` keeps the extracted archive of a binary agent in the local `acp-agent` cache, so that
later runs reuse it. `run` and the network transports look there first, and populate the cache when
the agent's entry is missing or stale. An entry is stale when the registry names another archive
than the one that the entry was made from (`src/runtime/cache.rs`).

## How it fits together

An operation on the outside (starting a process, reading a socket, downloading) is a *step*: a
value that says what to do, with a method that takes the outcome and returns what comes next. Each
such method has an exact contract, so a sequence of outcomes determines the result. Proof
functions state what holds across calls, such as that the bytes of a body do not depend on frame
boundaries, or that a socket path is removed exactly if it was created.

Paths and the names of programs are bytes, as the operating system has them, since not all of them
are UTF-8; only messages show them as text (`src/path.rs`).

What is taken on trust is marked `external_body`, `assume_specification` or
`external_type_specification` where it stands, with a comment that names the function it speaks
of.
