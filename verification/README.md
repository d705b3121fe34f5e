# blindpass_store

The state of a secret-broker controller and every step that may change it:
secret requests and exchanges, approvals, agents, operators and their browser
sessions, the node fleet, operations, grants and their revocation, audit, and
the clock that all deadlines are held against.

`src/` is the library. A `Store` holds the controller's tables as rows. Each
operation takes a `ClockReading`, passes the clock checkpoint, and returns the
next state and an answer. Its contract equates both with a function of the same
name on `StoreView`, so the state machine can be read from the specifications
alone. The modules that end in `_laws` prove what holds across operations: what
a fenced clock refuses, that keys stay unique, that a tenant's changes stay in
the tenant, that secrets and challenges are used once, that pages continue where
the last one ended, and more of that kind.

`app/` puts the library on SQLite or PostgreSQL. It opens a transaction, reads
the tables, lets the library make the step, and writes the rows that changed.
The clock source, the digests and the signed documents come from the host
through two traits.

`tests/` runs the library on concrete values.
