//! Advisory ingestion and retrieval logic of the trustify service: document
//! digests, document keys, the get-or-create protocols that the advisory
//! graph runs against its database, and the decisions of the HTTP endpoints.
use vstd::prelude::*;

pub mod digest;
pub mod document_id;
pub mod advisory;
pub mod cve;
pub mod package;
pub mod package_link;
pub mod organization;
pub mod ingestor;
pub mod endpoints;
pub mod config;

verus! {

} // verus!
