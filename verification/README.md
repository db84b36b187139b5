# test_kits

Sample tables, plans and data blocks for exercising a query engine.

`src/` is the library. It fixes the names of a fixture's database and table, the
schemas of its tables as expressions see them, the plans that create them, the
sample blocks to insert, the user that its sessions act for, and the order in
which an engine is brought up, a fixture is set up and rows are appended. How a
table stores a schema is up to the engine: plans take that form as an argument.
Each function states in its contract what it returns, and `src/laws.rs` states
what holds across functions.
Two outside calls are trusted: the random prefix of a fixture comes from `uuid`,
and the documents of variant columns are encoded by `jsonb`.

`app/` carries these decisions out on an engine, which implements the trait
`QueryEngine`: it opens sessions, creates tables, feeds blocks into a pipeline
and hands them out as streams.

`tests/` runs the library on concrete values.
