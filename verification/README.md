# spire_codegen

The code generators of the Spire game backend, verified with Verus, and the
game data tables they describe.

- `src/` is the verified library:
  - `schema`, `generator`, `concrete_table`, `abstract_table`, `enumeration`,
    `module`, `rust_types`, `names`: the data generator, which turns table and
    enumeration schemas into the Rust, protobuf and SQL sources of the data crate;
  - `server_schema`, `server_collect`, `server_generate`, `load_order`,
    `dependency`: the game server's data generator, including the layering of
    tables by their links (Kahn's algorithm) for the generated `load_all`;
  - `protocol_source`, `game_protocol`, `server_protocol`: the protocol
    enumeration and category generators;
  - `data_tables`: loading the rows of the data tables and gathering them in
    the tables they extend;
  - `db`: the database's connection address and Postgres types;
  - `text`: text building blocks (joining, splitting, ordering, decimals).
- `tests/` runs the library on concrete schemas and rows.
- `app/` holds the file-reading and file-writing drivers around the library.
