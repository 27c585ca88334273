//! Verified core of a small Pokédex utility: it flattens list and detail
//! responses of a REST API into records, frames them as JSON text, decides each
//! step of a sequential fetch run, and builds the replies of a one-route proxy.
//! Network, file and server plumbing live in the application around it.
pub mod record;
pub mod json;
pub mod fetch;
pub mod proxy;
