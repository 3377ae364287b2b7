# shop_api

The decision logic of a small shop service, verified with Verus: registration
and login with bcrypt passwords, role-carrying JSON web tokens, and a product
catalogue that only administrators and editors may extend.

- `src/` is the library. `register`, `login`, `middleware` and `products` hold
  the request handlers; `token`, `role`, `clock`, `config` and `text` what they
  are made of; `reply`, `request` and `statement` the values they exchange with
  the server; `laws` what the parts promise together. The calls into `chrono`,
  `serde_json`, `jsonwebtoken` and `bcrypt` are in `clock`, `json`, `jwt` (which
  uses `serde_json` as well) and `password`, behind contracts that are trusted.
- `app/` is the server: settings, HTTP and MySQL.
- `tests/` runs the library.

Settings of the server: `DATABASE_URL`, `JWT_SECRET`, and `JWT_EXPIRE_HOURS`
(24 where it is not set).
