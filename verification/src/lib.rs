//! A virtual UTC clock disciplined by NTP measurements.
//!
//! The library holds the integer logic of the clock: the NTP wire format and
//! the four-timestamp exchange, the anchor-plus-monotonic program clock, the
//! validated settings, and the decisions of the sampler and of the
//! orchestrator. Instants are nanoseconds since the Unix epoch, durations are
//! signed nanoseconds, and monotonic stamps are unsigned nanoseconds.

pub mod config;
pub mod measurement;
pub mod ntp;
pub mod orchestrator;
pub mod program_clock;
pub mod sampler;
pub mod timestamp;
