# a2a-demo bridge

A live web dashboard over an Agent-Fabric channel call. The bridge spawns a `ct-agent channel`
initiator for each visitor request, feeds it the visitor's message, and streams every step over
Server-Sent Events.

- `src/` is the library: every decision of the bridge, verified with Verus. It does no I/O.
- `app/` is the program around it: HTTP, processes, the clock, the environment.
- `tests/` runs the library on concrete values.

| module | what it decides |
|---|---|
| `environment` | which variables count as set, and the error for one that is missing |
| `identity` | agent-bob's identity, the scenarios, the edge and its trust anchor |
| `bridge` | what the bridge starts with, and whether a request launches a round |
| `message` | which messages are passed on, and how refusals are answered |
| `round` | the environment of a dial, and the events that a round consists of |
| `log_line` | what `ct-agent`'s status lines say |
| `heartbeat` | which peers are online, and when to say so |
| `report` | the status, the identities, the lines printed at startup |
| `event`, `json` | what goes over the wire, by way of `serde_json` |
| `text`, `hex` | strings and bytes |
| `round_laws`, `presence_laws`, `bridge_laws` | what holds across calls |

The program reads the dashboard's page from `index.html` in its working directory.
