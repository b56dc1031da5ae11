//! Verified core of a Prometheus exporter for the metrics of a Philips Hue
//! bridge: the bridge's data model, the endpoints the client talks to, the
//! reading of the bridge's answer to an authorization request, and the
//! mapping from sensors and lights to exported gauge samples.

pub mod text;
pub mod hue_client;
pub mod metrics;
pub mod service;
