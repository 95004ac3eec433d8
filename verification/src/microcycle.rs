//! Microcycle descriptors and the per-phase descriptor tables.

pub mod descriptor;
pub mod fetch;
pub mod execute;

pub use descriptor::Descriptor;
pub use fetch::descriptor as fetch_descriptor;
pub use execute::descriptor as execute_descriptor;
