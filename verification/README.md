# weather_db

The logic of a weather database for a game-engine front end, verified with
Verus.

- `src/database_initializer/` — the import of the binary data files (regions,
  time points, weather points, countries) as a step machine (`ImportJob`)
  that asks for files and updates the shared import `Status`; the file
  formats (`data_files`); the laws of the import (`import_laws`); the SQL of
  the single-connection database filler (`connection`).
- `src/database_connection/` — the SQL and the connection string of the pooled
  connection, the step machine that inserts a country with its regions, and
  the pixels of the world texture; `pool_config` parses the connection string
  and makes the pool's connection manager, each tied to the string it came
  from.
- `app/` — the thread, file, directory and network work that the library asks
  for, on `std`, `postgres` and `r2d2`.
- `tests/` — tests of the library on concrete files and statements.
