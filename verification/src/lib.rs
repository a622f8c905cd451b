//! The shared code writers of the gir binding generator, with contracts that
//! state the exact text each one writes.

pub mod analysis;
pub mod config;
pub mod declaration_laws;
pub mod enums;
pub mod env;
pub mod general;
pub mod gir_version;
pub mod library;
pub mod text;
pub mod version;
