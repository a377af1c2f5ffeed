# moon_shadow_photo

A camera device takes photos when it is asked to over MQTT and uploads them over HTTP. A logger
asks it to, at an interval and within a daily window, files the photos, and shows what goes on in
a terminal.

The library under `src/` holds the logic of both, verified with Verus:

- `text`, `json`, `calendar`, `clock`, `topics`: numbers and texts, JSON payloads, dates, times of
  day and the capture window, names of topics.
- `logger`: configuration, shared state, keys and settings, the schedule of requests, uploads,
  and what the terminal shows.
- `firmware`: camera set-up and sensor settings, stacking of frames, the configuration in flash,
  sessions with the broker, and the upload request.

What the library decides, `app/` carries out: it holds the logger program and the device program
with their input and output. The functions of the library that call `chrono` or `serde_json` are
private to `clock` and `json`; their comments say what is taken for granted of those crates, and
one in `text` does so of `String::push`.

Times on a clock that only moves forward are nanoseconds; dates are seconds since the Unix epoch.
