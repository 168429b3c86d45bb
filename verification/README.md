# matrix

Building blocks for talking to a Matrix homeserver and to the Synapse admin
API, with their behaviour stated in contracts and proved by Verus.

- `src/` is the verified library: the session state of the clients (base URL,
  access token, `Authorization` header, request URLs), the paths and bodies of
  the endpoints, the reading and writing of error kinds and error responses,
  user-interactive authentication data, filters, and the MAC of shared-secret
  registration. Calls into `url`, `http`, `hmac`/`sha1`, `hex`, `rand` and
  `ruma` stand behind small trusted wrappers whose contracts say what those
  crates do.
- `app/` performs the requests with `reqwest`, holds the JSON (serde) forms of
  the library's types, and plugs the error types into `ruma`.
- `tests/` runs the library on concrete values.
