//! Configuration of the middleware.

pub mod settings;
pub mod custom_fields_loader;
