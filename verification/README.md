# gix_remote

Listing the references of a git remote and fetching from it, with the decisions verified by Verus.

An operation that talks to a remote is a value. Its `request()` says what has to be done next, its `work()` lends what
that takes, and its `step()` takes what came of it. The contracts say which request follows which reply, what the outcome
is made of, and when each error occurs. What holds of any sequence of replies, while work leaves transports, credentials
and handshakes in whatever state it likes, is proved in `listing_laws` and `receive_laws`.

- `src/` is the verified library. It calls `gix-url`, `gix-refspec`, `gix-hash`, `gix-transport`, `nonempty` and
  `std::path` through small functions whose contracts are believed; each says so above it.
- `tests/` runs the library with these crates.
- `app/` does the work that the library asks for: it reads configuration and files, locks, writes packs and talks to
  servers, on behalf of a host that brings its repository and its implementation of the wire protocol.
