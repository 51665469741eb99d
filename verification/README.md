# vehicle_daq

Logic of a vehicle data-acquisition system, verified with Verus: sensor nodes
that sample an IMU and a GPS receiver and broadcast readings over ESP-NOW, a
bridge node that forwards them to a host over a COBS-framed USB serial link,
and host tools that decode, log and plot the data.

Layout:

- `src/wire.rs`, `src/cobs_frame.rs`, `src/text.rs`: byte-level helpers
  (little-endian fields through `byteorder`, COBS framing through `cobs`,
  MAC address text).
- `src/board/`: the node and bridge firmware logic: air message formats,
  the USB link protocol, time base, LED state machine and NeoPixel frames,
  the bridge's node tables and forwarding decisions, radio timing, GPS
  command building and NMEA assembly, IMU register and sample handling.
- `src/receiver/`: the host side: message parsing, frame assembly, time sync
  and track-capture commands, camera commands, GPIO edge decisions, console
  commands.
- `src/asm330.rs`: register composition for the ASM330 driver.
- `src/plotter.rs`: tile URLs, output paths and line rasterisation for the
  track plotter.
- `src/link.rs`: end-to-end properties across the bridge and the receiver.
- `app/`: the host receiver program (serial I/O, CLI, CSV rows, attitude
  filter), built on the library.
- `tests/`: tests on concrete values.
