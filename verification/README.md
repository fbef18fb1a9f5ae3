# esp_display

The control node of an ESP display: it streams 256-byte video frames to the
device, keeps the device's clock in step with a three-packet time round, and
serves an HTTP API over the media files it has indexed.

- `src/` is the verified library: the packet formats (`protocol`, with the
  little-endian encoding done by `byteorder` in `wire`), the time round as a
  state machine (`time_sync`), the decisions of the control link (`link`), the
  looping frame cursor (`frames`), switching to the stream (`stream`), the
  index of media files (`file_map`) and the node's settings (`config`).
- `app/` is the program around it: sockets, channels, timers, the clock, the
  file system and the HTTP routes, driving the library's functions.
