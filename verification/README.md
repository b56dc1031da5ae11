# hue_exporter

A Prometheus exporter for the sensors and lights of a Philips Hue bridge,
with its logic verified by Verus.

- `src/` is the verified library:
  - `hue_client`: the bridge's data model, the client's endpoint URLs, and
    the reading of the bridge's answer to an authorization request, with the
    error texts shown to the user;
  - `metrics`: the gauges (names, help texts, labels) and the samples each
    sensor and light contributes to them, with the laws that a device's
    samples carry its labels, feed each gauge at most once and exactly when
    the device has a value for it, and that gauge names are distinct;
  - `service`: settings from the environment with their defaults, the index
    page, and the steps of the authorization flow;
  - `text`: decimal rendering of numbers.
- `app/` is the program around it: HTTP requests to the bridge (reqwest),
  JSON decoding (serde), the gauge registry (prometheus), the HTTP server
  (actix-web) and logging.

Configuration is read from `HUE_TOKEN`, `HUE_BRIDGE_URL` (default
`http://hue-bridge.local`) and `BIND_ADDR` (default `127.0.0.1:9369`).
Without `HUE_TOKEN` the program asks the bridge for a token first.
