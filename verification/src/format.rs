//! Writers for mapping formats.

pub mod tiny2;

pub use tiny2::Tiny2Writer;
