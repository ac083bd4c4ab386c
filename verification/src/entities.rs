//! What a query hands back: the decoded table and the typed failures.

pub mod connector_error;
pub mod connector_response;
