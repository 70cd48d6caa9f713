//! JVM types and type descriptors.

pub mod class_name;
pub mod types;

pub use class_name::ClassName;
pub use types::Type;
