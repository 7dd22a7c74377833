# blog

A small blogging service (posts, accounts, sessions) whose rules are written
in Verus and proved against their contracts.

- `src/` — the verified library:
  - `model.rs`: posts, summaries, users, sessions, listing requests; how a
    post is summarised (by bytes of UTF-8, cut at 100 bytes).
  - `db/post.rs`: the row a new post is stored as, the window of rows a
    listing asks for, the post count.
  - `db/session.rs`: random session tokens, and the step-by-step creation of
    a session (an active session is reused; a fresh token is drawn until it
    is free, then stored).
  - `db/user.rs`: bcrypt hashing and checking of passwords, log-in.
  - `middleware/auth.rs`: the bearer token of a request and the user it runs
    for.
  - `handler/`: what each route decides between its database calls (error
    answers, the session cookie, the page count of the list page).
  - `error.rs`: the API and page errors and the responses that answer them.
- `app/` — the server around the library: axum routes, sqlx queries,
  serialisation and the HTML pages.
- `tests/` — tests of the library on concrete values.
