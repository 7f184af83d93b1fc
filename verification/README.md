# harmonyscale

The WireGuard tunnel core of a HarmonyOS client for Tailscale/Headscale
networks, verified with Verus.

- `src/` — the verified library:
  - `config` — tunnel configuration, base64 key decoding, key generation;
  - `wireguard` — the tunnel: packet encryption/decryption through
    boringtun, traffic counters, statistics;
  - `noise` — the trusted boundary to boringtun's `Tunn`;
  - `codec` — the trusted boundary to base64, x25519 and the OS RNG;
  - `endpoint` — parsing of `"ip:port"` endpoints;
  - `api` — the JSON answers of the C interface;
  - `registry` — the slots for the active tunnel and I/O loop;
  - `tunnel_loop` — what the I/O loop does with each packet it reads;
  - `error`, `text` — the error type and text helpers.
- `app/` — the C ABI (`wg_*` functions), sockets, the polling thread and
  JSON (de)serialisation through serde.
- `tests/` — tests run against the real boringtun.
