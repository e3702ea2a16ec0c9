//! Errors of the gateway's decisions. Transport and storage failures
//! are the caller's; these are the outcomes the rules themselves give.

use vstd::prelude::*;

verus! {

#[derive(Debug, Clone, PartialEq, Eq)]
pub enum GatewayError {
    /// The request or a device message is malformed or cannot be served.
    BadRequest(String),
    /// The named row does not exist.
    NotFound,
    /// The caller may not do this.
    Unauthorized(String),
    /// Configuration is unusable.
    Config(String),
}

} // verus!
