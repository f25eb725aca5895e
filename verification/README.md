# repeatrs

The domain and data-mapping core of Repeat.rs, a job scheduler with a
worker-pull architecture, written in Verus with its behaviour stated in
`requires` / `ensures` contracts.

## Layout

- `src/domain/`: jobs, queues, job runs and schedule states; sanitized names,
  the `-flag value` option syntax and its rendering, identifiers, statuses.
- `src/db/`: rows as the database stores them and their conversions to and
  from the domain types.
- `src/cli/`: the command line's requests: merging a job file with the
  arguments, identifiers, listings.
- `src/nats/`: the job queue configuration, its validation, stream subjects
  and outgoing messages.
- `src/cron.rs`, `src/time.rs`, `src/text.rs`: cron schedules (`croner`),
  points in time (`chrono`) and character classes.
- `src/outside.rs`: the outside types that the contracts carry.
- `tests/`: tests run against the compiled library with its outside crates.
- `app/`: the command-line program: argument parsing, configuration files,
  the network side.

Laws that span several functions are public proof functions beside the
functions they speak of (`lemma_*`).
