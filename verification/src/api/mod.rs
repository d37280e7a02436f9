//! The request pipeline.

pub mod middlewares;
pub mod pipeline;
