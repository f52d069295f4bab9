//! Configuration of a host monitoring agent: the event types it collects,
//! its limits, output and scanner settings, and host identity, with the
//! runtime contract derived from them (event filter and rate limits) and a
//! fingerprint of its canonical text.

pub mod config;
pub mod events;
pub mod fingerprint;
pub mod identity;
pub mod projection;
