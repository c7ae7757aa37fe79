# rustiful

A JSONAPI toolkit whose behaviour is stated as Verus contracts and proved. Where an answer
depends on a method that users implement (a repository call, a sort or fieldset conversion, the
context of a request, an error's description), the contracts state it in terms of what that
method returned for the arguments it was handed.

- `src/` is the verified library: reading the `sort`, `fields` and other query parameters into
  typed parameters (`query`, `params`), the JSONAPI error documents and the library's errors
  (`error`, `errors`), HTTP statuses (`status`), resource ids (`id`), the answers to GET, POST,
  PATCH, DELETE and index requests (`response`, `request`), and route planning (`router`).
- `app/` serves resources with Iron: it reads the route id, query string and body of a request,
  hands them to the library, and writes the library's answer as JSON with serde.
- `tests/` runs the library on concrete values.
