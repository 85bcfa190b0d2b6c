# lobby_provider

Matchmaking lobbies on Discord, verified with Verus: `/lobby`, `/join`, `/leave`, `/kick`,
`/resetlobby` and `/readycheck`, the reactions on lobby and ready-check messages, recovery after a
restart, and the maintenance commands.

Every procedure is a machine that runs in turns. A turn names what has to be done outside
(`protocol::Action`) and ends by asking for one thing, by finishing, or by waiting on. What came of
the question is handed back as a `protocol::Event`. The library never does I/O; each step has an
exact contract, and the laws that span steps stand beside the procedure they are about. Which events
can come of an action is stated by `Action::answered_by`; every procedure is proved to go on when it
is handed such an answer to its last question.

- `src/` is the verified library. Rules on values (texts, ids, settings, joins, ready checks, fake
  players) stand in modules of their own; the procedures stand under `src/flows/`.
  `flows::command` takes a command from its arrival to its end, and `flows::procedure` opens the
  procedures that other procedures ask for, so that only plain actions are left over.
- `app/` does what the turns ask for: Discord, the database, locks, clocks and random figures that
  are floating point.
- `tests/` runs single rules, single turns, and whole commands against a store and a chat in
  memory.

Trusted, and tested through public functions: the RFC 3339 text of a moment (`chrono`), lower-case
forms (`str::to_lowercase`), and the draws for fake players (`fastrand`).
