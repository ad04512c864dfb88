# prismoid

Host-side logic of a desktop live-chat client, verified with Verus.

The client runs a sidecar process that talks to Twitch, YouTube and Kick. The host writes control
lines to the sidecar's stdin, reads its answers from stdout, drains chat messages from a ring
buffer, and keeps the sign-in of the one Twitch account.

## Layout

`src/` is the library. Everything in it is verified.

| Module                | What it does                                                          |
| --------------------- | --------------------------------------------------------------------- |
| `json`, `framing`     | how a control line is written, and that it is one unambiguous line    |
| `control`             | the control lines                                                     |
| `document`, `events`  | what the sidecar says on its stdout                                   |
| `pending`, `sender`   | requests that wait for an answer, and the handle to the sidecar       |
| `commands`, `errors`  | the commands of the frontend and what they fail with                  |
| `batch`               | from ring-buffer payloads to chat messages                            |
| `tokens`, `store`     | the tokens of an account and where they are kept                      |
| `manager`             | when tokens are good, refreshed, or dropped                           |
| `auth_error`          | why there are no usable tokens                                        |
| `text`, `handles`     | texts, and handle inheritance where the platform has none             |

`app/` is ordinary Rust around the library: the window, the HTTP exchanges with Twitch, the locks,
and the types that the frontend sees. `tests/` runs the library with the outside crates linked.

## What is not proved

The library calls `serde_json` (with `serde`), `tokio` and `chrono`, and some functions of the
standard library.
What it claims of them stands in the doc comment of each such function, marked
`#[verifier::external_body]` or `assume_specification`.
