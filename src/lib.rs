//! Bookmark manager core: configuration updates, repository bootstrap
//! decisions, category manifests and the credentials handed to a push.

pub mod cmd;
pub mod config;
pub mod errors;
pub mod source;
pub mod urls;
