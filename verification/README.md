# chat_server

The account logic of a small chat/authentication web service, verified with Verus.

- `src/` — the library: response envelopes (`base_response_model`), user records
  (`user_model`), credential checks and the steps of registration and token renewal
  (`user_service`), what goes to and comes back from the user collection
  (`user_repository`), password sealing and other helpers (`helper`), token
  extraction from the `Authorization` header (`bearer`).
- `app/` — the HTTP server (actix-web), the MongoDB collection, environment reads and
  JWT encoding/decoding, which call into the library at each decision.
- `tests/` — tests of the library.
