# wifi_provisioner

Wi-Fi provisioning of an ESP32-C6 over Bluetooth Low Energy, with its wire formats
and decision logic verified in Verus.

- `src/protocol.rs` — authentication codes, the serialized connection type, the GATT
  characteristic UUIDs; round-trip laws of both encodings.
- `src/device/` — the device: scan records and their paginated serialization
  (`models`), the command dispatcher as a state machine (`runner`), the GATT read and
  write handlers (`gatt`), and the decisions of the Wi-Fi runner: scanning, the
  connection monitor with its retries, the connectivity tests (`wifi`).
- `src/client/` — the client: reading pages of scan results and status codes
  (`models`), the writes and polling decisions of each operation (`services`), the
  menus and their steps, and the reading of typed settings, IPv4 addresses in
  dotted decimal among them (`app`).
- `src/exchange.rs` — laws across both sides: what the client reads of a page and of
  the whole scan list the device sends, and what the device stores of the settings
  the client writes.
- `src/text.rs` — UTF-8 checks and decodings, trimming of received SSIDs.
- `src/errors.rs` — errors of the device's layers.
- `app/` — the command-line client (btleplug, tokio, dialoguer), and the firmware's
  task glue, compiled only for the device's RISC-V target.
