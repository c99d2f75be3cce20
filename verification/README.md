# kindergarten

Keeps child processes by ticket. A program puts a child process into a
`Kindergarten`, hands the `Ticket` around, and comes back with it for the child's
streams, to poll it, to wait for it, to signal it or to kill it. Children that
have been seen to end leave the garden, and their pipes are closed with the last
handle to them.

- `src/` is the library, verified with Verus: which child a ticket leads to, what
  each operation replies, and when a child leaves. `src/laws.rs` states what holds
  across calls and across tasks that take turns; `src/outside.rs` holds everything
  that is taken on trust.
- `app/` is the async front: it starts processes, locks streams, polls, signals and
  waits, and has the actix extractor and the serde form of a ticket.
- `tests/` run the library on real child processes.

An operation that has to wait for the operating system is split where it waits.
For example, `Kindergarten::kill` gives a `KillRequest`; once the kill has been
started, `KillRequest::started` gives a `Waiting`; once the child has ended,
`Waiting::exited` takes it out of the garden and gives the reply.
