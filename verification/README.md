# nodectl

A node controller that runs servers in Docker containers and manages them
through an HTTP API. The library in `src/` holds the logic and its proofs;
`app/` is the process around it (configuration file, database, Docker,
HTTP and websockets).

- `text`: string helpers (trim, join, split, decimal numbers, paths,
  shell quoting) with specifications over character sequences.
- `structs`: the server model and the names its enumerations have in the
  database; `server_service` assembles a server from its rows.
- `config`: configuration defaults, validation and the database URL.
- `helpers::servers`: container names, server directories and the exact
  `docker run` / `docker create` arguments of a server's container;
  `helpers::install`: the installation steps.
- `flow`: the actions and outcomes the handlers' steps exchange with the
  process; `handlers::servers::*`: each handler's decisions as a step
  function (state changes, delete, update, status, console, stats).
- `mw`: the token comparison in front of the routes.

Each step function is proved to follow its specification, and the
properties of the library as a whole (names read back as written, a
validated configuration is stable, a forced delete always succeeds, the
transaction of an update is committed only after success, and so on) are
stated and proved as lemmas next to the functions they are about.
