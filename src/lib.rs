pub mod math;
pub mod text;
pub mod error;
pub mod types;
pub mod attribute;
pub mod registry;
pub mod header;
pub mod validation;
