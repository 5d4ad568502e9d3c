# eggchan

The request logic of an imageboard backend that answers in JSON.

- `src/` is the verified library (Verus):
  - `http` – statuses, refusals (`Rejection`) and the error body (`ApiError`);
  - `form` – the multipart boundary, and the comment read out of a
    `multipart/form-data` body;
  - `listing` – what `GET /boards`, `GET /board/<name>` and
    `GET /board/<board>/<id>` answer, given the rows the store returned;
  - `posting` – the posting flow as a state machine over the store's answers,
    with its laws;
  - `ctl` – the command-line tool's choice of database and its board table;
  - `models`, `responses`, `messages` – the plain data types.
- `app/` runs it: the HTTP server (rocket), the database (diesel, r2d2), the
  store executor (actix) and `egg-ctl` (clap, prettytable).
- `tests/` exercises the library on concrete values.
