# reddit_scraper

A service that watches the newest posts of r/kubernetes, queues the ones that
ask a question, stores them in SQLite, and reports the sentiment (positive,
negative or neutral) of a randomly chosen stored post over HTTP.

- `src/` is the verified library: the decisions of the services, with
  contracts proved by Verus (sentiment scoring and labels, the random choice
  of a post, the migration run, the fetch backoff, which posts are queued,
  when a delivered post is stored, settings and answer bodies).
- `app/` runs the services (`scraper`, `worker`, `web`), does their
  network, queue, database and file work, and builds the JSON answers
  and metrics of the web API.
- `tests/` exercises the library.
