//! What the web frontend computes: its pages, the lookup of its static
//! files, and the scopes it asks for at login.

pub mod authentication;
pub mod files;
pub mod settings;
pub mod statics;
pub mod templates;
pub mod users;
