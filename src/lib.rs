//! Edge routing for Cloud Foundry route services: decides per request whether
//! it is served locally or relayed to the URL that the routing headers carry,
//! checks those headers, and strips them from relayed responses.
pub mod dispatch;
pub mod headers;
pub mod request_id;
pub mod routing;

pub use dispatch::InternalError;
