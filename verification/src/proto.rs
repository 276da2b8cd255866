//! Conversions between generated models and protobuf messages.

pub mod go;
pub mod go_directions;
pub mod go_imports;
pub mod go_order;
pub mod go_sources;
pub mod messages;
pub mod python;
pub mod python_directions;
pub mod python_forms;
pub mod python_order;
pub mod typescript;
pub mod typescript_directions;
pub mod validation;
