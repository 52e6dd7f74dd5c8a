# chromadb (verified collection model)

A Verus library for the client side of a Chroma collection.

- `src/validation.rs`: the checks that a batch of records passes before `add`,
  `upsert` or `update` sends it, with their rules as spec functions, and the
  messages of the refusals.
- `src/collection.rs`: the collection (id, name, metadata) and the requests of
  its operations: their paths under `/collections/<id>` and their fields.
- `src/laws.rs`: properties that relate the operations and the checks.
- `src/json.rs`: the `serde_json` types that the library carries through.
- `app/`: the asynchronous side, which runs the embedding function between the
  two validation stages, turns requests into JSON and sends them through an
  API client.
