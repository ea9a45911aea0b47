//! The names and texts used throughout the service.

pub mod email_templates;
pub mod html_templates;
pub mod route_paths;
pub mod strings;
