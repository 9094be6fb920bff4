# dogkbd

A keyboard-over-network proxy for an exhibit: a sender reads key taps from a Linux input
device and sends them as 16-byte UDP packets; a receiver filters them against an HID
allowlist, drops duplicates, and either injects them into a target window (with a control
panel for arming, auto-enter and a treat dispenser) or routes bursts of input to one of
several destinations.

## Layout

- `src/` — the library, verified with Verus:
  - `proto` — the packet format (encode/decode, proved inverse) and the HID allowlist;
  - `telem` — telemetry payload types and UTF-8-safe text capping;
  - `keys`, `overlay` — key previews and overlay messages;
  - `listener` — per-device duplicate detection and the accept/drop verdict;
  - `sender` — evdev key codes to HID codes and the sender's shift/sequence state;
  - `router`, `burst` — the route table, routing policy and burst buffer;
  - `receiver` — the control panel's state machine (time in milliseconds);
  - `display` — event de-duplication and the snapshot replayed to new viewers;
  - `inject`, `target` — key codes for injection and window matching;
  - `text` — decimal/hex rendering and small string helpers.
- `tests/` — tests of the library.
- `app/` — the programs around the library: argument handling, sockets, the GUI,
  the web servers, OS injection and serialization.
