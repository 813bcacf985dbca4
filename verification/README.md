# neoshd

A resumable remote terminal over QUIC: `neosh` is the client, `neoshd` the server. A session is
bootstrapped over SSH, joined with a token that works once, and can be detached, resumed and taken
over by the same client.

The library in `src/` decides everything that can be decided without input and output. Its
behaviour is stated in contracts and proved with Verus.

| Module | What it holds |
| --- | --- |
| `protocol` | frames, kinds of control messages, the order in which they may come |
| `token` | tokens, kept as hashes, and their laws |
| `session` | sessions, who is attached to them, and their laws |
| `server` | options, the state of a server, what each control message does, its documents |
| `client` | bootstrap, handshake, retries, detaching, what is remembered of a session |
| `agreement` | that client and server understand each other's messages |
| `runtime` | sessions and tokens together |
| `terminal`, `ffi` | how the shell is started; the decisions of the C interface |
| `json`, `document`, `fields`, `digest`, `ids`, `time`, `text`, `paths`, `shell` | what the others rest on |

`app/` is the program around it: command lines, sockets, streams, files and the terminal. Started
as `neoshd` it serves, and under any other name it is the client.

What is believed without proof is the contracts of calls into other crates and into the standard
library. Each of them stands in a function of its own, marked `external_body`, or in an
`assume_specification`, and says which call it makes and what is claimed of it.
