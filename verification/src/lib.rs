//! Routing core of a reverse proxy for named API providers: the provider
//! table, upstream URL construction, the header forwarding policy, and the
//! plan of the outbound request.

pub mod errors;
pub mod forward;
pub mod headers;
pub mod overrides;
pub mod registry;
pub mod resolver;
