# mysten_infra

Networking and infrastructure building blocks, with their core logic verified
by Verus.

- `src/` is the verified library:
  - `anemo`: peer identities (ordering, equality, reading the identity from a
    peer's X.509 certificate), the idle timeout of the transport, and the
    connection table of a network with its simultaneous-dial tie-breaking.
  - `serde_lib`: `BcsSafeBTreeSet`, an ordered set kept as a map with unit
    values so that its serialization is canonical.
  - `rccheck`: ed25519 key encodings (SPKI, PKCS#8) and self-signed
    certificates. The encodings and certificate generation are calls into
    `pkcs8`, `ed25519` and `rcgen` whose contracts are trusted (their bytes are
    stated, and tests check them); what is built on them is verified.
  - `typed_store_macros`: checking the fields of a `DBMapUtils` struct and
    reading their `#[options(...)]` attributes.
  - `telemetry`, `span_latency_prom`, `mysten_network`, `component`: which
    subscriber and output a telemetry configuration selects, the parameters of
    the span latency layer, the metrics hooks of a server, and the decisions of
    a component supervisor.
- `app/` is the unverified glue around it: the QUIC endpoint and network over
  `quinn`, the supervisor's task loop, subscriber installation, the
  Prometheus layer, certificate verifier plumbing, serde support and the
  `DBMapUtils` code generator.
- `tests/` exercises the library with the real outside crates linked.
