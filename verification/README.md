# alms_runs

The decisions behind a gateway's agent runs, verified with Verus.

`src/` is the library. It is pure: every function maps plain values to plain
values, and its contract says which. Work that waits for the outside world (a
queue, a store, a lock, a model) is written as a state machine: a phase names
what has to be done next, the event that reports the result leads to the next
phase and to the effects to perform, in order.

- `execution`, `execution_laws`, `guard`: a run from the queue to its end.
- `create`, `admission`, `admission_laws`, `cancel`, `replies`: requests for runs
  and against them.
- `enqueue`, `triggers`, `completion`, `dm_notice`: runs that events start.
- `launch`: what each run is recorded, announced and executed with.
- `job_episode`, `episode_laws`, `tool_calls`, `jobs`, `rearm`, `job_card`:
  scheduled jobs, which are finished when all the work they started is.
- `runtime_plan`, `peer`, `queue`: what a run is given, what its peer is told,
  where it stands in line.
- `read_api`, `streaming`: what clients read and are replayed.
- `markers`, `messages`, `metadata`, `context`, `ids`, `clock`, `text`: the
  values that all of these speak of.

Laws that relate several functions are public proof functions named `law_*`.

`app/` is the asynchronous shell: it performs the effects against a host that
provides the gateway's services, and serves the HTTP endpoints.
