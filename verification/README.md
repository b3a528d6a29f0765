# dwarfer

A URL shortener. Short identifiers (1 to 64 characters of `a-z0-9.-_+`,
normalized to lower case, or six random characters) lead to stored URLs; an
identifier stored without a URL is reserved and can be claimed later.

- `src/` is the verified library: identifiers (`short_url`), records (`model`),
  errors, authentication, the storage traits and the read-only file repository,
  the create / redirect / manage use cases, the conversion of database rows, and
  what the HTTP interface and the command line answer to each request.
- `app/` is the program around it: settings from files and the environment, the
  SQLite repository, loading the repository file, the axum server and the clap
  command line.
- `tests/` exercises the library with the real outside crates.
