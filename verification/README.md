# async-ssh2-tokio

Asynchronous SSH (ssh2 over tokio) with the retry decisions verified in Verus.

- `src/` — the verified library: the blocked-direction model (`directions`),
  the retry loop that drives an operation to completion (`retry`), and the
  single-poll state machine used by the `AsyncRead`/`AsyncWrite` impls
  (`poll_pass`), each with its laws as proof functions.
- `app/` — the async types (`AsyncAgent`, `AsyncChannel`, `AsyncStream`,
  `AsyncListener`, `AsyncSftp`, `AsyncFile`) that perform the I/O the state
  machines ask for.
- `tests/` — tests of the state machines.
