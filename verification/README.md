# onlyrust

The account logic of a small subscription-based file-sharing site, written in
Verus and proved against its contracts.

- `src/password.rs`: hashing passwords with Argon2 (a fixed salt and the Argon2
  crate's default configuration) and checking a password against a stored hash.
  The contract of `hash_password` states the encoded form of the hash and that
  checking the same password against it succeeds.
- `src/time.rs`: UTC instants as the chrono crate represents them, with
  whole-day arithmetic, reading the system clock and reading RFC 3339 text.
- `src/subscription.rs`: plan lengths (`plan_a` 30 days, `plan_b` 60 days), the
  end date of a subscription, the record stored for a new one, and whether a
  user is subscribed at a given time, from the stored end dates.
- `src/reply.rs`: the HTTP status and body answered to account requests.
- `src/text.rs`: character-wise string equality.
- `app/`: the actix-web server, the SQLite store (rusqlite), the PostgreSQL
  registration route (sqlx) and S3 uploads (rusoto), which call the library.
