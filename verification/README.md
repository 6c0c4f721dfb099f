# healthkit

Health check endpoints for Rust services: liveness, readiness and startup
probes with dependency checking, and Prometheus metrics. The decisions are
verified with Verus.

- `src/` is the verified library. It holds the registry and its groups, what a
  sweep over the checks reports, the Redis and database checks, the Prometheus
  exposition with its cache, and what every route answers. Nothing in it waits
  or talks to a network: it says which checks to run, and turns how they ran
  into results and responses.
- `app/` is ordinary Rust around it. It runs the checks concurrently on tokio,
  each bounded by its deadline, talks to Redis and to databases, emits through
  the `metrics` facade, and serves the routes with axum.
- `tests/` runs the library on concrete values.

| Module | What it holds |
|---|---|
| `types` | statuses, check results, response bodies, the worst of some statuses |
| `error` | why a check did not yield a status, and its message |
| `duration` | spans of time in nanoseconds |
| `registry` | registration, sharing, groups, sweeps, aggregation, emitted metrics |
| `metrics` | the text exposition, how it reads back, and the scrape cache |
| `axum` | routes, status codes and responses |
| `checks` | what a probe of Redis or of a database amounts to |

Functions named `law_*` state what holds of the library as a whole.
