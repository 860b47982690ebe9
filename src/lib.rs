//! Connection authorization for a VPN endpoint: each connection attempt is allowed only when
//! its source address is known to lie in a permitted country, and denied otherwise.
//!
//! A request is first checked for a source address ([`request`]), the address is looked up
//! by the caller at the URL that [`location`] gives, the result is weighed against an
//! allow-list ([`policy`]), and the outcome becomes the response ([`response`]).
//! [`pipeline`] ties these steps together, and [`laws`] states what holds of every decision.

pub mod laws;
pub mod location;
pub mod pipeline;
pub mod policy;
pub mod request;
pub mod response;
