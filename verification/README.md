# zterm_daemon

The decision core of the zterm daemon, verified with Verus: pairing offers and
their one-time consumption, the pairing handshake rules, relay route planning,
the remote terminal attachment bridge, the opaque Session tunnel pump, the
remote Session retry policy, local service routing, and the private control
packets of the multi-process pairing harness.

The decisions take plain values (clock readings, decoded frame fields,
outcomes of network and store calls) and return plain values, each with a
contract stated over a mathematical model and proved. The few functions that
read the operating-system clock or entropy (`system_time`, `crypto`, and the
clock- and entropy-reading methods of `PairingManager`) state what holds
whatever was read, and hand the reading to a verified step with an exact
contract.

Layout:

- `src/` — the verified library. Notable modules: `offer_registry` and
  `pairing_manager` (offers, replay cells, tombstones), `pairing_laws`,
  `accept_registry`, `pairing_flow`, `pair_framing`, `route`,
  `attachment_epoch` and `attachment_laws` (the attachment bridge as a state
  machine), `remote_tunnel`, `remote_session`, `control_packet`, `service`.
  `crypto` and `system_time` hold the few trusted calls into `ring` and `std`.
- `tests/` — scenario tests run against the compiled library.
- `app/` — thin process glue: locks around the registries, blocking control
  packet I/O, and the platform guard of the pairing harness.
