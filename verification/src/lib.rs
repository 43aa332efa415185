//! A resilient telemetry session core: the decision logic of a device that
//! publishes motion-sensor samples to a message broker while draining inbound
//! broker events, with bounded-state subscribe retry and fixed-interval pacing.
//!
//! The surrounding hardware, network and timer collaborators are driven by an
//! unverified shell; this crate holds every decision the session makes and the
//! exact payload each publish carries.

pub mod cert;
pub mod cycle;
pub mod fault;
pub mod laws;
pub mod pump;
pub mod session;
pub mod telemetry;
