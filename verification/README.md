# letterboxd_diff

A server that compares what two Letterboxd members have watched: `/first/vs/second` shows the films
that only the first has watched, `/first/and/second` those that both have, from the best rated to
the worst.

- `src/` is the library. Verus proves that each function does what its contract says. It holds the
  comparison, the reading of pages of films, ratings and names, and the decisions on requests,
  retries, the cache and the answers of the server.
- `app/` is the program around it: requests, the database, the pages and the routes.
- `tests/` runs the library on concrete values.
