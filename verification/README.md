# lance_conversion

A service that converts Parquet directories (NFS, S3) and Hugging Face
datasets into Lance datasets, with its rules proved in Verus.

## Layout

- `src/` — the verified library.
  - `location`, `job`, `lifecycle`, `ordering`, `store`: dataset locations,
    the job model, the lease-fenced job lifecycle, and an in-memory job table
    whose operations (create, list, query, claim, renew, checkpoint,
    complete, fail) carry exact contracts and laws (attempt fencing, the
    retry cap, append-only error history, unique destinations).
  - `converter`, `progress`: converter settings in bytes and the conversion
    error type; row counters of a running conversion.
  - `schema`, `blob`, `indexes`: schema checks, blob column selection and
    per-row blob handling, and index planning.
  - `uri`, `sources`: URL parts, S3 and Hugging Face locations, file order,
    and conversion checks.
  - `reconciler`, `service`, `env`, `clock`: settings, worker decisions,
    environment values, and unix-millisecond time.
  - `web`, `cli`, `factory`, `rows`: request rules and error responses,
    client arguments, backend selection, and the row encoding of jobs.
  - `text`: string helpers (decimal and hexadecimal text, trimming, search).
- `tests/` — tests of the library.
- `app/` — the programs: the web control plane (axum), the reconciler, the
  command-line client (reqwest), the SQLite job store (sqlx), and the Lance
  conversion glue.
