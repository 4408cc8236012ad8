# psst

A Matrix notification daemon: native notifications for room messages, edits, reactions,
invitations and calls, with per-room and per-sender filters, and dismissal when a message is read
or redacted elsewhere.

- `src/` is the library, verified with Verus: configuration and overrides (`config`), the filters
  (`filters`), the history of posted notifications (`state`), the decision about each event
  (`decide`), the handling of each kind of event (`handlers`), notifications and backends
  (`notification`), and the flows of login, logout, verification and key import (`session`,
  `verify`), with the running daemon's decisions (`runtime`). `laws/` states what holds across
  these modules.
- `tests/` runs the library on concrete values.
- `app/` is the program around it: command line, disk, keyring, network, desktop.

Each module's contracts speak of views: strings are sequences of characters, tables are maps, the
history of a room is a sequence of entries. Functions that decide by a clock come in pairs; the one
whose name ends in `_at` takes the readings as arguments and says exactly what follows from them.
