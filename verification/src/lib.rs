//! Authentication and authorization core of a multi-tenant project-management
//! backend: sealed access and refresh credentials, the request-scoped identity
//! and organization context, and the guards that every protected route passes.

pub mod api;
pub mod clock;
pub mod config;
pub mod directory;
pub mod errors;
pub mod ident;
pub mod models;
pub mod password;
pub mod services;
pub mod text;
pub mod utils;
