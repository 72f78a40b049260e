# task_auth

A task-management service with two-factor login, written as a verified
library (`src/`, checked by Verus) and a thin HTTP program around it (`app/`).

## What the library states and proves

- Request validation: each validator reports exactly the problems of a
  request, all at once, in a fixed order.
- Login: unknown addresses and wrong passwords get the same refusal; an
  issued code is six zero-padded digits, stored only as an Argon2 hash, in a
  challenge that expires five minutes after issue.
- 2FA verification: a challenge is refused when missing, used, expired or
  given the wrong code, in that order; a consumed challenge is refused
  whatever the code and the time, and of concurrent verifications of one
  challenge at most one is confirmed by the conditional update.
- Authorization: access tokens are signed with HS256 (`jsonwebtoken`) over
  claims naming the user and expiring 24 hours after issue; a bearer token
  is accepted only when it verifies and names a user id and a known role;
  task creation and assignment need the admin role.
- Task assignment: every requested id must parse and name an existing task;
  the cached views of the assignee and of every previous assignee are
  invalidated, each once, and no other user's view is touched.
- Task view: tasks are listed oldest first, ties kept in stored order; the
  cache key of a user names that user alone.
- Object ids: parsing the hex form of an id gives the id back.
- Seeding is idempotent; rate limiting lets through `min(n, limit)` of the
  `n` requests an identity makes in one second.
- The development mailbox keeps the latest code per address; reading an
  address gives what was last recorded for it.

Laws that relate several functions are public proof functions whose names
start with `law_`.

## Layout

- `src/models`: accounts, tasks, challenges, object ids, request and response
  bodies.
- `src/request_validations`: input checks.
- `src/compute`: the decisions of each endpoint, from the values read from the
  database and cache to the values written back and answered.
- `src/security.rs`, `src/utils/clock.rs`, `src/utils/jwt.rs`: the calls into
  argon2, rand, chrono, bson and jsonwebtoken, each behind a small trusted
  wrapper whose contract says what is assumed of it.
- `app/`: Actix routes, middleware plumbing, MongoDB and Redis access, and
  JSON bodies.
