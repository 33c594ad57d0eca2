//! Multi-tenant push-notification relay core.
//!
//! The library accepts delivery requests on behalf of registered clients,
//! deduplicates redeliveries, and routes each notification to the push
//! vendor configured for the client's tenant.

pub mod cache;
pub mod clients;
pub mod dispatch;
pub mod error;
pub mod laws;
pub mod notifications;
pub mod payload;
pub mod providers;
pub mod response;
pub mod signature;
pub mod state;
pub mod tenants;
pub mod text;
