# phm

The core of a small asynchronous web framework, written in Verus.

- `src/` is the verified library: the route trie (`router`), the HTTP/1.1
  request-head rules, the request head and its variables, multipart file
  extraction, the response builder and its wire form, status codes and
  methods, the order in which middleware and handlers run, and the data model
  of the API-collection document (`postman`).
- `app/` is the server around it: binding a listener, reading requests off
  connections, running async handlers and middleware on a worker pool,
  writing responses, and the process-wide API-collection document with its
  JSON form.
- `tests/` exercises the library.

The procedural macros of the framework (`route`, `postman`, `postman_info`,
`postman_module`), which generate route definitions and the API-collection
file at compile time, are not part of this crate: they need a crate of the
procedural-macro kind, which this layout does not build. The filing rules they applied
to the collection are verified in `postman::ApiSchema` (`add_item`,
`document`, `take_module`).
