# todo_server

A small to-do web service: accounts with session cookies, user profiles, to-do
items with tags, and a fixed-size matrix utility.

- `src/` is the library, written and proved with Verus:
  - `utils` — `LenLimitedString<S>` (a string of at most `S` bytes), `SizeError`,
    decimal text;
  - `matrix` — `Matrix<T, W, H>`: building from iterators, lookup, transpose,
    cell-wise maps, sums and products of `i32` matrices, and their laws;
  - `auth` — account checks (name, password, e-mail pattern), password hashing,
    the session key `AuthKey` and its expiry rules;
  - `forms`, `models` — the request and storage records and the conversions
    between them;
  - `date` — calendar dates and the deadline text format;
  - `controllers` — the decisions behind the HTTP handlers;
  - `database` — reading the connection-pool size setting.
- `app/` is the Rocket server around it: routes, cookies, JSON and the MySQL store.
- `tests/` exercises the library.
