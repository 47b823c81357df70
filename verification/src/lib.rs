//! One-shot timer core for readiness-driven timers.

pub mod oneshot;
