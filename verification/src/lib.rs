//! Core logic of a sidecar-process bootstrap: a host application spawns a
//! companion server process, relays its output to tagged log lines, polls a
//! local health endpoint until the server is ready or a bounded number of
//! attempts is exhausted, and exposes one bridge operation so a front end can
//! poll server health on demand.
//!
//! Everything that decides or formats lives here and is verified; the
//! surrounding process spawning, HTTP transport and timers are the host
//! application's job and hand plain values in and out.

pub mod gate;
pub mod health;
pub mod registry;
pub mod relay;
pub mod text;

pub use health::ProbeOutcome;
