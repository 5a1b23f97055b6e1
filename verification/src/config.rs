//! Settings of the fundamental module and its API description.
use vstd::prelude::*;

verus! {

/// Upload size limits of the fundamental module's endpoints, in bytes.
#[derive(Clone, Copy, Debug, PartialEq, Eq, Structural)]
pub struct Config {
    pub sbom_upload_limit: usize,
    pub advisory_upload_limit: usize,
}

impl Default for Config {
    fn default() -> (c: Self)
        ensures
            c.sbom_upload_limit == 0,
            c.advisory_upload_limit == 0,
    {
        Config { sbom_upload_limit: 0, advisory_upload_limit: 0 }
    }
}

/// The OpenAPI description of the advisory endpoints.
#[derive(Clone, Copy, Debug, PartialEq, Eq, Structural)]
pub struct ApiDoc;

} // verus!
