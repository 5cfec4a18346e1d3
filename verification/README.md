# harrow

A verified core of the Harrow HTTP framework and its tools.

`src/` is the library, checked by Verus:

- `lifecycle`, `connection`: an HTTP/1 connection's state machine, and the
  decisions a connection makes while reading a request head and body and
  writing the response.
- `response`, `route`, `openapi`, `security_headers`, `timeout`, `ws`,
  `o11y`, `json`: responses and their headers, route tables and groups, the
  OpenAPI document of the routes, middleware configuration, the WebSocket
  handshake, request ids and trace ids, and JSON buffer sizing.
- `meguri`: the io_uring layer's completion queue, operation dispatch,
  buffer reclamation, operation futures' state, and the kernel's constants.
- `bench`: the benchmark harness's logic: configuration, plans, commands,
  templates, command-line parsing, result ordering, the remote test's report
  and the run summary's Markdown page.
- `json_tree`, `openapi_json`: JSON values built by the library, and the
  OpenAPI document as one.
- `keyed`, `text`: lemmas on lists read as maps, and string helpers.

`app/` is the plain Rust around it: conversion to `http` and `serde_json`
types, the syscalls and shared memory of io_uring, async glue, parts of the
benchmark harness's process, host and file handling (commands over SSH,
image checks, health checks, the load generator's output), and the summary's
SVG charts, which are drawn from floating-point measurements. `tests/` exercises the library with
its outside crates linked.
