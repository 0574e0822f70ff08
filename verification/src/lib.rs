//! Redundancy scheduling policies for forward error correction on a QUIC
//! transport.
//!
//! The scheduler decides, each time the transport may emit a packet on a
//! path, whether that packet should carry a repair symbol instead of new
//! source data.  It is a pure policy engine: it reads observable signals
//! (congestion telemetry, traffic counters, loss statistics, a wall clock
//! reading) through plain-value view records supplied by the caller, keeps
//! its own history, and never performs I/O itself.

pub mod background_fec_scheduler;
pub mod burst_protecting_fec_scheduler;
pub mod burst_protecting_fec_scheduler_with_fec_only;
pub mod congestion_disabled_cc;
pub mod cooldown_fec_scheduler_with_fec_only;
pub mod disabled_cc;
pub mod fec_scheduler;
pub mod numeric;
pub mod params;
pub mod views;
