# golf_booker

A self-hosted booker for golf tee times at MiClub-style clubs: browse a club's
events, book a slot now, or schedule a booking that fires the instant the tee
sheet opens.

## Layout

- `src/` is the library, verified with Verus. It holds the rules the server
  acts on, each with its contract:
  - `golf/` reads booking responses (error documents, login pages, blank
    bodies), classifies booking errors, builds the club's URLs and forms, and
    answers questions about a booking sheet and its slots;
  - `scheduler/` decides how long to wait, when a firing attempt is done,
    whether a failed job is re-armed or failed, whether a job was missed, and
    what the notification email says;
  - `web/` holds the page rules: redirect targets, the login limiter, form
    checks, the schedule request check and the reading of a wall-clock time in
    a club's zone;
  - `users.rs`, `clubs.rs`, `config.rs`, `error.rs`, `time.rs`, `text.rs` hold
    accounts and reset tokens, clubs, configuration, the error page, instants
    and dates, and string helpers.
- `app/` is the server around it: the database, HTTP to the clubs, email, the
  scheduler's timers and the axum front end.
- `tests/` runs the library on concrete values.

Calls into other crates (password hashing, SHA-256, hex, randomness, date and
zone handling, HTML escaping) go through small trusted wrappers whose
contracts are stated next to them.
