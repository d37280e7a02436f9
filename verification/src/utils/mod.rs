//! Small helpers of the handlers.

pub mod bearer_token;
pub mod context;
pub mod logger;
pub mod urls;
