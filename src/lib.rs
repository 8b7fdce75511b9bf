//! Routing and state for an air-quality chat bot: message classification, the
//! per-user location store, the provider request/response handling and the
//! report formatter.
pub mod client;
pub mod report;
pub mod router;
pub mod store;
