# abyss_singularity

The decision logic of the Abyss Singularity game launcher, written in Verus
and verified against its contracts.

- `src/library` — platform detection by extension and folder/title/serial
  heuristics, stable entry ids, merging a scan into the cached library,
  IGDB query building and metadata mapping, library settings.
- `src/installer` — the bundled emulator manifests, download-URL
  resolution, controller seed files for PCSX2 / DuckStation / Dolphin,
  BIOS identification, the launch-configuration slots and their repair,
  platform auto-assignment, streaming-app detection and the install flow
  for Sunshine, Moonlight and Tailscale as a step function from report and
  event to report and action.
- `src/chat` — the length-prefixed frame format, the chat state (capped
  history, peers, presence) and how each received frame updates it.
- `src/lobby` — rooms: hosting, joining, leaving, starting a netplay game.
- `src/mesh` — PROXY v1 header parsing, the SOCKS5 CONNECT exchange and
  the sidecar's command line.
- `src/directory` — directory-service identity, settings and request paths.
- `src/controller` — gamepad family detection and RetroArch autoconfig files.
- `src/diagnostics` — the rows of the diagnostics report.

`app/` holds the host-side glue: JSON shapes, file system walks, sockets and
HTTP. `tests/` exercises the library on concrete values.
