# platform-services

The services of a small hosting platform, with their logic verified in Verus.

- `db-migrate` runs, rolls back, seeds, records, drops and restores the databases
  of registered projects (`src/ops`, `src/storage.rs`, `src/checksum.rs`,
  `src/lock.rs`, `src/password.rs`).
- `truenas-db-manage` provides databases on a second server (`src/truenas.rs`).
- `komodo-proxy` and `komodo-stacks` carry out actions on a Komodo server
  (`src/komodo`).
- `ci-ingest` takes in reports of builds and shows them (`src/ingest.rs`).
- `og-server` serves pages with OpenGraph tags (`src/og`).
- `cors-handler` answers preflight requests (`src/cors.rs`).

What a service decides stands in `src/` as functions and machines with contracts.
A machine names the next action, is told what came of it, and ends with a result.
`app/` performs the actions: it connects, queries, reads and sends.

The laws of the operations are in the files `src/ops/*_laws.rs`. They speak of a
model of the world, `src/ops/world.rs`, in which every action has its effect and
the success of a script is left open. Those of the actions on a Komodo server are in
`src/komodo/proxy.rs` and `src/komodo/run_laws.rs`.

`app` takes the name of the service as its first argument. The certificates of the
database servers are read from `certs/rds-global-bundle.pem`, or from the file that
`RDS_CA_BUNDLE` names.
