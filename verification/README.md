# qwiz

A quiz service: accounts, qwizzes and their questions, votes, classes,
assignments, media items and live qwizzes.

- `src/` is the library, verified with Verus: password rules and hashing
  (`crypto`), the live-qwiz state machine (`live`), question ordering and
  answer changes (`question`), the account cache (`account`), upload
  planning (`media`), assignment completion (`assignment`), the role,
  vote and status decisions behind the routes, the route tables, and
  step functions (state and event to next state and action) for the
  handlers that alternate database work and decisions: casting and
  withdrawing a vote, changing and deleting a question, creating, changing
  and deleting an account, listing an account's classes, creating a class,
  adding students to it and deleting it, and creating and changing a qwiz.
- `app/` is the HTTP service around it (Rocket and PostgreSQL through
  sqlx): it reads requests and rows, calls the library, runs the step
  loops, and writes rows, files and answers.
- `tests/` runs the library on concrete values.
