//! The services behind the routes.

pub mod auth;
pub mod comment;
pub mod github;
pub mod issue;
pub mod oauth;
pub mod org;
pub mod slug;
pub mod token;
