# openclaw_linux

The Linux companion of OpenClaw (tray app, gateway connection, node host), with its
logic as a Verus-verified library.

- `src/` — the library, verified with Verus: settings and the OpenClaw config merge,
  deep links, the device identity (PEM keys, fingerprints, signed handshake payloads),
  the gateway handshake and operator requests as JSON text, the Control UI addresses,
  node command routing, capture tool tables and result handling, push-to-talk state,
  the exec approval socket protocol, pairing announcements, the SSH tunnel arguments and
  the start-and-wait procedure for the gateway service. Calls into `url`, `serde_json`,
  `base64`, `sha2`, `hex`, `ed25519-dalek`, `rand`, `dirs` and `uuid` sit behind small
  trusted wrappers whose contracts are stated next to them.
- `tests/` — tests of the library.
- `app/` — the Tauri shell: windows, tray, processes, sockets, files, the WebSocket
  connection and the async loops that run the library's steps. It keeps the serde
  mirror types of the library's data, the reading of JSON request parameters into the
  library's field values, the location code (floating point), and the desktop
  toolkit's own objects; the decisions and texts come from the library.
