# typesafe

A client library for the TypeSafe AI API, written in Verus.

- `src/` is the verified library: the question and answer types, how a
  client is configured from builder settings, environment values and
  defaults, the requests that each call sends, how a failure status becomes
  an error and its message, and how the answers of a response are split by
  kind. Its contracts and laws are checked by Verus.
- `app/` is the I/O around it: reading the environment variables, sending
  requests with reqwest, and the JSON wire format through serde.
- `tests/` runs the library on concrete values.

The answers of a response are held in `AnswerMap`, a list of answers keyed by
question name whose type invariant is that no name occurs twice, in place of a
`HashMap<String, Answer>`: vstd's specification of `HashMap` says nothing
for `String` keys. For the same reason `choices`, `scores` and `nouls` return
a `Vec` of `(name, answer)` pairs in the map's order rather than a `HashMap`.
