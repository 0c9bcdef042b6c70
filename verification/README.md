# address_book

An address book service with accounts, written in Verus.

* `src/` is the verified library: an in-memory store with the `users`,
  `login_history` and `people` tables (`config::db`), the user, token, login
  history and person models (`models`), the account and address book services
  (`services`), token and header handling (`utils`), the authentication
  decision of the request middleware (`middleware`), and properties that relate
  several operations (`properties`).
* `app/` is the actix-web side: handlers, the middleware's actix plumbing, JSON
  forms of the library's types, the route table, and the secret signing key,
  read from the `secret.key` file and registered as application data.
  Tokens are signed and checked with that one key. Make the file with
  `head -c16 /dev/urandom > secret.key`, or write 16 random `0`/`1` characters
  to it.
* `tests/` runs the library on concrete values.
