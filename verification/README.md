# email_cli

A local-first email command line for the Resend API. Its library part is
verified with Verus; the program around it (I/O, database, HTTP, menu bar)
is ordinary Rust.

`src/` is the verified library. Every public function carries a contract
over a mathematical model (sequences of characters, integers, the views of
the records), and the properties that span functions stand as public proof
functions.

- `inbox`, `statements`: the SQL statements behind the mailbox commands
  (listing, search, threads, marking, archiving, snoozing, statistics) and
  the decisions around them (which requested ids exist, page cuts, thread
  message ids, List-Unsubscribe links, the body shown).
- `sync`, `sync_run`: the walk over a mail listing down to the stored
  cursor, and a sync run over the accounts as a state machine (what
  to fetch, which messages to store and announce, when a failure stops the
  run, when the cursor moves).
- `wake`, `clock`: snooze times (`tonight`, `4h`, ISO 8601 …), resolved
  exactly against a given instant and local day (`wake_time_at`), with the
  clock and calendar operations of `chrono` behind small trusted wrappers.
- `compose`: outgoing mail — Message-IDs, reply threading headers
  (In-Reply-To, References), reply subjects and recipients, signatures,
  base64 attachments, and which sent messages belong to an account.
- `attachments`: output targets, file names (sanitized, numbered on clashes),
  cache or download, the prefetch failure policy and tally.
- `api`: endpoint paths, list queries and the retry policy of every request.
- `text`: ANSI escape and HTML tag stripping.
- `daemon`, `render`, `app`: status titles, menu click polling, the
  background worker's schedule, printed lines, output format and exit codes.

`app/` is the program around the library: argument parsing (clap), the
SQLite mailbox (rusqlite), HTTP (reqwest), JSON (serde), and the macOS menu
bar. It runs the statements and requests the library builds and prints what
the library renders.
