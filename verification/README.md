# prometheus_wireguard_exporter

The metric rendering and request handling of a Prometheus exporter, verified
with Verus.

- `src/prometheus/`: metric types, samples (labels, value, timestamp), a
  type-checked metric builder and the text exposition format, with the
  decimal writing of integer values.
- `src/server.rs`: Basic authorization of the `Authorization` header, routing
  of a request by path and method, and the replies the endpoint gives.
- `app/`: the Hyper/Tokio server that feeds requests to the library and turns
  its replies into HTTP responses.
