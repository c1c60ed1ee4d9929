# usbfly

A verified core for USBfly, a USB traffic analyzer for the Cynthion USB test
instrument. The library in `src/` is written in Verus: every function carries a
contract that Verus proves.

## Layout

- `src/app_state.rs` — the application state and how it answers each message:
  the new state and the commands (open the device, send capture requests, read
  traffic, timers, files) handed to the runtime.
- `src/capture.rs`, `src/prepare.rs` — the sequences of vendor requests that
  start capture and that prepare the device and start its transfer queue, as
  step functions driven by the runtime.
- `src/decode.rs`, `src/transaction.rs` — decoding captured buffers into USB
  transactions and describing control requests.
- `src/stream.rs` — framing of the length-prefixed packet stream.
- `src/descriptor.rs`, `src/hints.rs` — descriptors framed from captured data,
  the descriptor view and the hints it shows.
- `src/traffic.rs`, `src/tree.rs` — the traffic view and its tree of
  transactions and descriptors.
- `src/device_view.rs`, `src/devices.rs`, `src/device_detector.rs`,
  `src/control.rs` — the device list, capture devices, detection of devices
  behind the analyzer, and decisions about vendor requests, retries and
  transfer errors.
- `src/class_codes.rs`, `src/vendor_ids.rs`, `src/descriptor_types.rs` — lookup
  tables of USB class codes, vendor IDs and descriptor types.
- `src/speed.rs`, `src/text.rs`, `src/widgets.rs`, `src/bytes.rs`,
  `src/simulation.rs` — speeds and control bytes, text renderings, the hex
  dump, byte copies and simulated traffic.
- `src/laws.rs` — properties that span several operations, stated and proved.
- `tests/` — tests run against the compiled library.
- `app/` — a command-line program around the library: USB I/O with `nusb` and
  `rusb`, the event loop that performs the library's commands, and saved
  captures in JSON.
