//! Element-type abstraction for generic numeric containers.
//!
//! Two pieces, the second built on the first:
//!
//! * [`scalar::Scalar`] — a structural capability marker: any type with value
//!   equality, a debug form and a stable runtime type identity qualifies as a
//!   container element, with no per-type registration.
//! * [`scalar::UninitScalar`] — a carrier for one reserved-but-unwritten slot
//!   of element storage. It qualifies as an element itself, so generic code
//!   can handle buffers mid-construction, but every semantic operation on it
//!   is defined to be a fatal fault.

pub mod scalar;
