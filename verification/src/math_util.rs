//! Shared structure-of-arrays utilities.
pub mod vector3;

pub use vector3::Vector3;
pub use vector3::Vector3Series;
