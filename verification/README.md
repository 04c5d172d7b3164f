# plumb

A stream analytics test bench: point it at a CSV file or a WebSocket feed and
run pipelines of connectors, transformations and destinations over the data.

- `src/` is the library, verified with Verus: pipeline and node models and
  their statuses, the registry of connector types, what a CSV row becomes as a
  JSON message (keys, counting, encoding), and what a WebSocket source does
  with each frame it receives.
- `app/` is the program around it: the HTTP API (axum), storage in SQLite,
  and the CSV and WebSocket sources that do the reading and the networking and
  hand the library what they read.
- `tests/` exercises the library on concrete values.
