# app_volume

Per-application volume control for a PulseAudio sound server, written in Verus.

- `src/` is the library. Every decision of the monitor stands here with its contract:
  - `volume`: raw volumes and percentages.
  - `text`, `sorting`, `listing`: decimal numbers, the order of names, and the sorted lists.
  - `proplist`, `server`: what the server reports.
  - `presentation`: which streams and devices are shown, and as what.
  - `streams`: the streams, devices and snapshots that the user interface is shown.
  - `inventory`: what is known of the server, and the snapshot of it.
  - `command`: commands of the user interface, and the requests they become.
  - `monitor`: the course of connecting, refreshing and publishing, one step at a time.
  - `handles`: who holds the ends of the channels.
  - `reports`, `course`: what holds after any reports, and over any course of events.
- `tests/` runs the library.
- `app/` is the program around it: the PulseAudio connection, the thread, the channels and the
  applet's subscription.

The only unproved contract is that of `str::to_lowercase` in `src/text.rs`, which says no more than
that its result depends on the text alone.
