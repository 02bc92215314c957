# kube-playground

The verified core of a handful of small services (a web service, a service with
Prometheus metrics, Sentry/dipstick reporting, and mock push-gateway and statsd
servers).

- `src/` is verified with Verus: configuration defaults (`config`), request metrics
  and the Prometheus text report (`metrics`), the services' answers (`pages`), and
  UTF-8 decoding and white-space trimming of received text (`text`).
- `app/` runs the services (one subcommand each): environment, sockets, the HTTP
  server, the process-wide metric registries, sleeps and floating-point timings.
- `tests/` runs the library on concrete values.
