//! The descriptors a query is built from, each with its rendering.

pub mod format;
pub mod locations;
pub mod optionals;
pub mod parameters;
pub mod valid_date_time;
