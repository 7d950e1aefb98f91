# valqeron_engine

The engine of Valqeron: a single-instance background process that owns the
database, answers issuer requests over a local socket, and runs scheduled work.
This crate is the engine's logic, verified with Verus, and the program around
it.

- `src/` is the verified library. Every rule stands here with its contract:
  - `engine`, `config`, `cli`, `paths`, `proto`: configuration and the command
    line;
  - `serve`, `runtime`, `lifecycle`, `lockfile`, `notify`: a run of the engine,
    from boot to the release of the lock, as machines that take events;
  - `schedule`, `calendar`, `moment`, `span`, `backoff`: business days,
    occurrences, instants and waits;
  - `plane`, `triggers`, `sync_plane`, `execute`, `manager`: when work is
    seeded, claimed, executed and retried;
  - `queue`, `task_queue`, `cursor`, `history`, `stats`, `registry`, `catalog`:
    the stores, and `rows`, `registry_rows`, `settings` how they are persisted;
  - `database`, `schema`: how a database is opened, migrated, pooled and
    dry-run;
  - `grpc`: how requests become storage calls and answers;
  - `service`: the launchd and systemd definitions and their installation;
  - `queue_laws`, `sync_laws`, and the `law_` functions of the other modules:
    what holds across calls.
- `app/` is the program: files, sockets, SQL, signals and tasks. It performs
  what the library decides.
- `tests/` runs the library on concrete values.

Time, random ids and the environment are arguments of the library's functions.
Instants are ticks since the Unix epoch, two billion to the second: one for
each nanosecond, and as many for the leap second that may follow. Dates are
days since the epoch. What is stored holds whole milliseconds, as its text
does.
Calls into other crates and into std that the library makes stand behind
functions marked `external_body`; each says what it takes for granted.
