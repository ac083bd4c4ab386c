//! Typed building blocks for querying a weather-data web API: time ranges,
//! parameter, location and option lists are rendered to the URL path of a
//! time-series query, and the semicolon-delimited answer is decoded into a table.

pub mod configuration;
pub mod connector_components;
pub mod entities;
pub mod text;

pub use crate::connector_components::{locations, optionals, parameters, valid_date_time};
pub use crate::entities::{connector_error, connector_response};
