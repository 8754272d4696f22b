# inventarium

The authentication core of the Inventarium server, verified with Verus.

- `src/` is the library. `service::auth_service` holds the rules: account
  creation, login, token checks and refresh, and the creation of the first
  administrator. Operations that need the user store are written as steps:
  each step names the read or write to perform next, or ends with a result.
  `service::claims_json` writes the claims of a token as JSON; `service::jwt`,
  `service::password`, `service::clock` and `service::seed` reach jsonwebtoken,
  argon2, chrono and uuid. `controller::auth_controller` decides the answer of
  each endpoint; `service::auth_properties` states properties that span steps.
- `app/` is the server: poem endpoints, the SQLite store (sqlx), start-up and
  configuration from the environment. It runs the library's steps.
- `tests/` exercise the library on concrete values.
