//! How a query becomes a request and an answer becomes a result.

pub mod api_client;
