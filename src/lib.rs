//! A thread-affine, biased reference-counted pointer.
//!
//! Every handle carries a private weight budget that it spends on clones made
//! from its own thread without touching the shared counter. The shared counter
//! of a cell is touched only when a budget runs out, when a handle is cloned
//! from another thread, and when a handle is released.
pub mod weight;
pub mod inner;
pub mod imp;
pub mod singleton;

pub use imp::Frc;
pub use inner::Inner;
pub use singleton::Singleton;
pub use weight::{ClonePlan, DEFAULT_ADD_WEIGHT, DEFAULT_WEIGHT};
