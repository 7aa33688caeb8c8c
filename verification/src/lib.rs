//! A declarative schema engine for configuration entities: schemas, fields
//! and form sections, with defaults, placeholders, validation rules and
//! visibility that depend on the current values of other fields.

pub mod store;
pub mod model;
pub mod resolve;
pub mod form;
pub mod settings;
pub mod registry;
pub mod builder;
pub mod integrity;
pub mod laws;
pub mod tls;
