//! The records that the backend stores and the bodies that it exchanges.

pub mod auth;
pub mod comment;
pub mod context;
pub mod github;
pub mod issue;
pub mod org;
pub mod user_preferences;
