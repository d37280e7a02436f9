//! The stages that a request passes before its handler: the identity
//! resolver first, then the guards that the route declares.

pub mod authentication_guard;
pub mod logger;
pub mod org_guard;
pub mod role_guard;
pub mod token_extractor;
