# purplesector

Telemetry capture for racing simulators, and the ingress gateway that publishes it.

A rig captures telemetry over UDP (Assetto Corsa, Assetto Corsa Competizione), assembles the
samples into batches, writes them to a local log and streams them to the gateway. The gateway
authenticates each stream by its token, unnests the batches and publishes one record per frame.

- `src/` is the library: packet formats, batching, the state machines of the transport, the
  pipeline and the gateway, and token checks. Each function states in its contract what it does;
  the public proof functions state what holds of several of them together.
- `app/` is the program around it: sockets, channels, files, gRPC, the broker and the tray icon.
- `tests/` runs the library on concrete values.

| module | what it holds |
| --- | --- |
| `capture` | packets of the simulators and the sources that read them |
| `batch` | the batch assembler |
| `grpc` | the transport from the log to the gateway |
| `delivery` | what becomes of a batch between transport, log and gateway |
| `pipeline` | start, stop and set-up of the pipeline |
| `gateway`, `auth` | streams at the gateway and who they belong to |
| `config`, `icon` | settings and the tray icon |
| `proto`, `wire`, `text`, `float32`, `time` | messages and basic notions |

Floating-point numbers are held by their bit patterns. The library compares and clamps them;
arithmetic on them is left to the program.
