//! A typed client core for the Monzo REST API: request builders with shared
//! pagination, the endpoint capability they implement, and the decisions of
//! the transport adapter that sends them and resolves the answers.

pub mod client;
pub mod endpoints;
pub mod into_future;
pub mod params;
pub mod timestamp;
