//! The request log: one line for each answered request.

use vstd::prelude::*;
use crate::utils::logger::{status_color, Color};

verus! {

pub struct RequestLogger;

pub struct RequestLoggerMiddleware;

impl RequestLogger {
    /// The log at work on requests.
    pub fn new_transform(&self) -> RequestLoggerMiddleware {
        RequestLoggerMiddleware
    }
}

impl RequestLoggerMiddleware {
    /// The colour that the status of an answered request is logged in.
    pub fn status_color(&self, status: u16) -> (color: Color)
        ensures
            color == status_color(status),
    {
        status_color(status)
    }
}

} // verus!
