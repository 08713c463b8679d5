# bitter

A terminal client for Bitwarden vaults that also serves their SSH keys as an SSH agent. The
logic is a library verified with Verus; around it stands a thin program that does the I/O.

## Layout

- `src/` is the verified library.
  - `text`, `number`, `url`, `json`, `tree`: texts, numbers, URLs, JSON and MessagePack trees.
  - `primitives`, `crypto`: the calls into cryptographic crates, and the key derivations and
    cipher strings that are built on them.
  - `api`: the messages of the server, the requests to it, and the texts of its failures.
  - `config`: settings, sessions, timeouts and tokens.
  - `storage`: vault items, their decryption, the tables of the cache, the statements that are
    run on them as a whole or not at all, and the laws that relate saving and loading.
  - `agent`: the SSH agent protocol.
  - `daemon`: the control socket, the watchdog, the SSH socket, the unlock prompt and the live
    updates of the running agent.
  - `commands`, `cli`: what the commands do.
  - `tui`: the state of the terminal user interface and what it shows.
- `tests/` runs the library with the real crates, and its statements on a real SQLite database.
- `app/` is the program: argument parsing, files, sockets, HTTP, the database and the screen.

## How it is specified

Functions state their results over spec functions on mathematical values. What an outside crate
computes is either stated or given a name (`pub uninterp spec fn`), next to the wrapper that
makes the call. Statements on the database act on a ghost `Database`; the laws in
`storage::laws` and `storage::lists` say what is read back after what was written, and what
stays; those in `storage::transaction` say that a refused plan changes nothing.

Public proof functions state the laws of the library. Each is named by what it says.
