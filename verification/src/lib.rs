//! Battery telemetry core: a throttled sampler and time-windowed rolling
//! buffers that feed a live chart, with every contract checked by Verus.
//!
//! Time is kept as whole milliseconds and physical quantities as
//! thousandths of their unit, so that every rule here is integer arithmetic.

pub mod axis;
pub mod reading;
pub mod sampler;
pub mod status;
pub mod text;
pub mod window;
pub mod window_laws;
