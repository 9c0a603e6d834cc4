# FlowControl core

Share one mouse between two machines placed side by side: when the cursor
reaches the configured screen edge it continues on the other machine.

`src/` is the verified library (Verus):

- `screen_layout` — neighbor sides, watched and return edges, the layout.
- `edge_detection` — the crossing event and the one-shot arrival latch.
- `state_machine` — the hand-off state machine and its transition laws.
- `protocol` — wire messages and the length-prefixed frame format.
- `fingerprint` — pair fingerprint derivation (BLAKE3) and its display form.
- `coordinator` — the coordinator's decisions: state and event in, actions out.
- `network` — connection states, discovered-peer registry, connect targets.
- `input` — classification of OS mouse events and injected event codes.
- `settings`, `tray`, `commands` — settings defaults, tray menu contents,
  command parameters.

`app/` is the runtime around it: Tauri commands and tray, the tokio event
loop that performs the coordinator's actions, TCP and mDNS, OS input hooks,
bincode serialization, and all floating-point coordinate arithmetic.

`tests/` exercises the library with the real outside crates linked.
