//! Value translation between a fixed external graphics-API vocabulary
//! (integer enumeration codes and bitmask flags) and the internal
//! hardware-abstraction vocabulary (typed variants and flag sets).
//!
//! Every function here is pure: it takes one external or internal value and
//! returns the corresponding value of the other vocabulary, or a typed
//! failure.  [`error::ConvError`] distinguishes an input outside the declared
//! external domain (`InvalidInput`) from a legal input that this backend does
//! not yet translate (`NotYetSupported`).

pub mod error;
pub mod vk;
pub mod format;
pub mod image;
pub mod buffer;
pub mod memory;
pub mod pso;
pub mod pass;
pub mod device;
