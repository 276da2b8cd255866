# nexgen

Generates client code for Nexus services from WIT packages and JSON schemas. The library in
`src/` is verified with Verus: every function states what it returns, and the proofs stand
beside the code.

- `src/wit/` reads the directives of WIT packages, gathers the packages and builds the services,
  operations, resources and types that are generated from them.
- `src/json_schema/` renders TypeScript models, parsers and serializers for JSON schemas.
- `src/proto/` renders the Go, Python and TypeScript conversions between generated models and
  protobuf messages.
- `src/files.rs`, `src/paths.rs`, `src/output.rs` and `src/generation.rs` decide which files a
  generation writes, and where.
- `app/` reads and writes the disk around the library, parses WIT and JSON, and runs formatters.
- `tests/` runs the library on concrete inputs.

Properties that hold of the library as a whole are stated as public proof functions whose names
start with `law_`.
