# campus_backend

The backend of a campus services app (announcements, bus schedule, events,
mess menu, food outlets, a marketplace and a lost-and-found board), served
over HTTP with data in PostgreSQL and users signed in through Firebase.

- `src/` is the library, verified with Verus: admission of callers to
  endpoints reserved to administrators (`auth::Guard`), identification of
  users from token claims, the permission vocabulary and the SQL text built
  from it, the answer of every endpoint to the outcome of its database work,
  the life cycle of listings, the replacement of the mess menu within one
  transaction, and the decoding and naming of uploaded images.
- `app/` is the server: routing, token validation, database access, files.
- `tests/` runs the library on concrete values.
