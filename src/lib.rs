//! Statistics of a background worker, kept up to date by a refresh loop on a
//! fixed cadence and read by a dashboard.
//!
//! Time is counted in milliseconds on the monotonic clock that the refresh
//! loop reads, from that clock's origin.
pub mod stats;
pub mod refresh;
pub mod laws;
