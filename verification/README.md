# pdcan

Verified logic for the PDCAN protocol of a modular mini-rack power system:
a backplane with carrier slots and USB-C PD carriers talking CAN-FD, and the
first-generation port-switching backpack. The library is written in Verus; every function states its behaviour
in `requires`/`ensures` and is proved against it.

## Layout

- `src/types.rs`, `src/protocol.rs`, `src/wire.rs` — identifiers, headers,
  the message registry and little-endian field access.
- `src/codec.rs`, `src/telemetry.rs`, `src/commissioning.rs`,
  `src/firmware.rs` — encoders and decoders of the Generation-2 messages,
  with round-trip laws.
- `src/node.rs` — commissioning, carrier and backplane controllers and the
  firmware-update state machine, with their invariants and laws.
- `src/artifact.rs` — update bundles: header, digest check, unsigned build.
- `src/drivers/` — register-level logic of the SW3538, INA237, PCA9554,
  TCA9548A, TMP102 and DS18B20 parts and the configuration record format;
  the bus owner performs the transfers these functions plan.
- `src/port/` — the first-generation backpack: its port, policy and settings
  model, the port controller (emergencies first; no enabled port energized
  before its enable is durable), and its commissioning, control, response,
  state, power, heartbeat and board-information codecs.
- `src/backpack/` — the backpack's board revisions, fan drive, action
  routing, bus and controller task decisions, status LED rendering, the
  task supervisor and the request service (`command_service.rs`), which
  holds the answer to every durable mutation until its revision is written,
  replays exact retries, refuses reused request identifiers and serialises
  durable mutations.
- `src/boards/` — pin and capability contracts of the backplane and carrier.
- `src/sim.rs`, `src/sim/options.rs` — the deterministic node simulator and
  its command line.
- `src/host.rs`, `src/host/` — the host tool's logic: command lines,
  replies, scans and firmware-update transfer windows.
- `src/tooling.rs` — firmware targets, size budgets, bundle manifests and the
  CAN database text.
- `src/text.rs` — parsing and formatting of numbers, node addresses and UIDs.
- `app/main.rs` — the `pdcan-sim` program: argument handling and the
  SocketCAN loop around `SimulatedNode`.
- `tests/` — behaviour tests of the library.

SHA-256 comes from the `sha2` crate through one trusted wrapper
(`artifact::sha256`); turning ASCII bytes into a `String` goes through
`text::ascii_string`.

The backpack's settings journal in flash (`ConfigStore`) is not part of the
library: it is written against a record format and a settings encoding that
the project's current record and type crates no longer carry.
