//! Turns game-controller stick motion into relative pointer deltas.
//!
//! The library holds the decision logic of the input engine: the response
//! shaper that eats the deadzone, the dual-stick arbiter, the per-tick
//! pipeline that scales deflection by sensitivity and elapsed time, and the
//! session manager that owns device-handle lifecycle. Hardware polling and
//! pointer injection are platform calls performed by the surrounding
//! application, which feeds their results in as plain values.

pub mod arbiter;
pub mod backend;
pub mod pipeline;
pub mod session;
pub mod settings;
pub mod shaper;
