# chat_server

A chat service (users, contacts, direct messages, groups, channels, messages,
files, live event streams) split in two:

- `src/` is the library, verified with Verus:
  - `sessions`: the live-session registry — which user each session belongs
    to, which chat and which users it watches — with indexes kept exactly in
    step with the sessions, and the routing of each event to the sessions that
    must hear of it; session ids and stream numbers; login outcome and the
    session cookies.
  - `listeners`: the key → listener-set registry the session indexes are made of.
  - `events`: per-channel listener lists that drop closed streams, and the
    decisions of the chat and user event streams.
  - `users`, `chats`, `messages`, `contacts`, `files`, `admin`: for each
    endpoint, the SQL statement it sends and the values it binds; the types it
    answers with; how a user is shown; the endpoint tables.
  - `outcome`: how database results become HTTP statuses.
  - `decimal`: the decimal text of ids in cookies, and its round trip.
  - `api`: the `api` endpoint set: its user, chat and message endpoint tables (not mounted by the server).
- `app/` is the Rocket server around it: request guards, cookies, the SQLite
  pool, running the statements, the event channels and streams.

The tests under `tests/` exercise the library.
