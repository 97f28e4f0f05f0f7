//! The OpenAPI description of the service.
use vstd::prelude::*;

verus! {

/// The OpenAPI document of the service; its endpoints are secured by a
/// bearer-token HTTP scheme.
#[derive(Debug, Clone, Copy, PartialEq, Eq, Structural)]
pub struct ApiDoc;

impl ApiDoc {
    /// The name under which the bearer-token security scheme is registered.
    pub fn security_scheme_name() -> (name: &'static str)
        ensures
            name@ == "Token"@,
    {
        "Token"
    }
}

} // verus!
