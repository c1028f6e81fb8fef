//! Interface engine for a pressure-sensing touch surface.
//!
//! A layout overlays interactive controls on the sensor grid. The engine
//! routes each touch contact to the control under it, and the control's state
//! machine turns the sequence of touch phases into outbound messages.
//!
//! Quantities that a sensor reports as real numbers (coordinates, force,
//! slider values) are held as fixed-point [`device::scalar::Scalar`] values.
//! Time is supplied by the caller as a monotonic count of microseconds.

pub mod device;
