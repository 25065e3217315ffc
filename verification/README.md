# zodiacal-web

A web service that plate-solves uploaded astronomy images: a client uploads
an image (FITS, JPEG, PNG, TIFF) or a JSON source list, then follows the
solve over a WebSocket until it learns the sky coordinates, orientation,
pixel scale and field size of the image.

## Layout

- `src/` — the verified library (Verus):
  - `protocol` — the messages and records the server and client exchange;
  - `binary64` — double precision values held by their bit pattern, with
    IEEE comparisons;
  - `decode` — recognising FITS files, and the shape of their first image plane;
  - `fits_cards` — the size keywords of FITS headers, checked before a file
    is parsed;
  - `upload` — the decisions on the fields of an upload form;
  - `solver_config` — which hints a solve uses;
  - `solve_session` — the solve socket as a state machine, and the order its
    messages follow;
  - `models` — job table rows and the job records built from them;
  - `app_socket`, `client` — the application socket with its job
    subscriptions, and the browser client's status lines;
  - `text`, `decimal`, `indexes` — string routines, decimal rendering, index
    file selection.
- `app/` — the server program: HTTP and WebSocket handlers, the database,
  image decoding and the solver calls, all driven by the library.
- `tests/` — tests of the library.
