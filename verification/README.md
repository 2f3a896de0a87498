# libre_user

The user service of libre: an actix-web server over PostgreSQL that lists,
reads and changes users on behalf of bearer-token holders.

- `src/` is the verified library (Verus). It decides who may do what
  (`access`, `update`), drives a change to a user step by step against the
  store (`update`), builds and adjusts token claims (`jwt`), maps storage
  failures to service errors (`error`), chooses the token signing algorithm
  and reads the signing keys from their PEM text (`jwt`), and reads the
  cluster flag (`env`).
- `app/` is the server: routes, database and Redis pools, token signing and
  checking with the `jsonwebtoken` crate, and the serde and diesel copies of
  the library's types. It performs what the library decides.
- `tests/` runs the library on concrete values.
