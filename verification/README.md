# scheduler_backing

Persistent backing stores for a cron job scheduler, written in Verus.

The scheduler keeps its jobs in one of four stores so that they survive
crashes and restarts: Redis, SQLite, DynamoDB, or a no-op store that keeps
nothing.

## Layout

- `src/` is the verified library. Each store operation (upsert, touch,
  delete, recover) is a state machine: started with its arguments, it asks
  for one piece of outside work at a time (a database call, or encoding or
  decoding a job) and is resumed with the outcome. The library decides which
  commands are sent and in which order, what happens with each reply, which
  jobs a recovery hands back, and how each failure is reported and whether it
  is worth retrying.
  - `error.rs`, `job.rs`, `machine.rs`: errors, jobs and timestamps, and the
    step types shared by the machines.
  - `redis.rs`, `sqlite.rs`, `dynamodb.rs`, `noop.rs`: the stores, with
    how each is opened: the Redis URL parse and the connect-then-`PING`
    sequence, the SQLite URL parse and connection settings, the DynamoDB
    endpoint and table setup.
  - `redis_model.rs`, `sqlite_model.rs`, `dynamodb_model.rs`: a model of each
    database, in which every call succeeds and the JSON codec is a pair of
    functions, and the properties of the stores proved against it. Among them:
    when the codec reads back what it writes and the database's listing
    (`KEYS *`, the `SELECT`, the scan) returns each stored record once, a
    recovery after an upsert hands the job back exactly once; two upserts of
    one id leave what the last one wrote; a second delete changes nothing; and
    a delete undoes the upsert of a new id.
- `tests/` runs the machines against in-memory databases.
- `app/` connects the machines to the real databases (`redis`, `sqlx`,
  `aws-sdk-dynamodb`), encodes jobs as JSON with `serde_json`, and offers the
  asynchronous `Backing` interface.
