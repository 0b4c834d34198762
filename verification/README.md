# roommate

The decision logic of the Roommate LAN helper (a Tailscale/Headscale-based
"play together over the internet" tool), written in Verus and proved against
its contracts.

- `src/` — the verified library:
  - `protocol` — GUI ↔ service messages, the service's request checks, and
    the length-prefixed framing of message bodies;
  - `engine` — the service's tunnel state and GUI lease, as a state machine
    that says what each request needs and builds the replies;
  - `client` — the GUI's requests and its reading of the service's replies;
  - `status` — reading `tailscale status --json` into what the GUI shows;
  - `cli` — arguments and output of the `tailscale` CLI;
  - `config`, `sidecar`, `platform` — host names, settings, `.env` files,
    where the sidecar binaries are looked for, and host-system fallbacks;
  - `text` — character and string helpers with their specs.
- `app/` — the program around it: Tauri GUI, Windows service and named pipe,
  process and file I/O, JSON (serde), and floating-point latency parsing.
- `tests/` — tests of the library.
