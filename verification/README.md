# photobooth

The software of a photo booth: guests start a session, enter their names,
choose a weapon, a land and a companion, have their photo taken (with one
retake), leave an e-mail address, and may print the photo. Completed
sessions are appended to a CSV log.

## Layout

- `src/` — the library, verified with Verus.
  - `text.rs` — models of the string operations the booth relies on
    (white space, `contains`, `lines`, `split_whitespace`, `trim`, joining,
    decimal numerals) and executable versions proved against them.
  - `clock.rs` — UTC instants, the clock, durations and time formatting.
  - `session.rs` — a session: choices, photo, e-mail, retakes, log record.
  - `session_logger.rs` — CSV rows, the log file's header and the count of
    logged sessions read back from it.
  - `picture.rs` — colour photos and black-and-white copies, decoded and
    encoded by the `image` library.
  - `camera.rs` — camera selection, the `libcamera-still` protocol, the
    retry of busy captures and the decoding of the captured photo.
  - `printer.rs` — printers driven through `lpstat` and `lp`, and the
    black-and-white copy printed in place of the photo.
  - `cups_printer.rs` — printers driven through the CUPS library, and the
    search for the Brother printer under its names.
  - `handlers.rs` — the rules of the web interface: how each request changes
    the booth's state and what it is answered.
  - `server.rs` — embedded images and the choice between HTTP and HTTPS.
- `app/` — the web server (axum): routes, devices, files, processes.
- `tests/` — tests of the library.
