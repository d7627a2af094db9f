# nikon_bulb_server

An HTTP service that drives a Nikon camera through libgphoto2: it queues one
capture at a time, takes bulb or timed exposures, keeps a table of capture jobs
in SQLite, serves the saved files (with byte ranges) and sweeps fetched files
after a retention period.

The decisions of the service live in `src/`, verified with Verus:

- `models`: the request, job and answer types, and timestamps.
- `error`: the error kinds, their codes, HTTP statuses and messages.
- `capture_store`: the table of capture jobs (queueing only when idle, status
  changes, cancellation, listing oldest first with a cursor and a page size,
  the retention sweep), the stored status texts and file checksums.
- `handlers`: what each endpoint answers for a given table, and the reading of
  `Range` headers.
- `camera`: the plan of a capture (option writes, capture target, shutter,
  file names), how a value is written into each kind of camera widget, the
  retry of lost camera links, and the wait for a bulb exposure's file.
- `config`: defaults and the reading of numeric settings.
- `text`: the character-level helpers these rest on.
- `laws`: properties of the library as a whole, proved.

`app/` holds what Verus does not see: the axum routes, the libgphoto2 calls,
the SQLite file, environment variables and background tasks. It hands the
library plain values and acts on what comes back.
