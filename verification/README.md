# backend

A shop-assistant web backend: users register and log in, own stores with
products, and ask a language model questions about a store.

- `src/` is the verified library. Every decision of the services lives
  there: request validation, ownership checks, error mapping, token and
  password rules, chat room and message construction, health reporting.
  A service call that needs the database, the model or the clock is a small
  state machine: each step says what to ask for, and the next step takes the
  answer and decides. Calls into outside crates (uuid, serde_json,
  jsonwebtoken, argon2, sha2, hex, chrono) sit behind trusted wrappers whose
  contracts are stated in their doc comments.
- `src/laws.rs` states properties that span several operations: an issued
  token authenticates its user until it expires and is refused after,
  only tokens that decode under the configured secret are accepted,
  registered passwords log in, stores and chat rooms are private to their
  owner, any sequence of store operations keeps domains unique and
  normalized, repeating a product update changes nothing more, a created
  product's JSON comes back in its response, and API tokens are the digits
  of a version-4 UUID.
- `app/` is the HTTP server around the library: axum routes and extractors,
  sqlx repositories, the Ollama client, configuration and start-up. It runs
  the library's steps and performs the I/O they ask for.
- `tests/` exercises the library on concrete values.
