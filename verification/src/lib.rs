//! A copy-on-write handle over a shared, reference-counted allocation.

pub mod cow;
pub mod laws;
pub mod shared;

pub use cow::CowArc;
pub use shared::Allocation;
