//! Message construction and transport dispatch for a small mail relay
//! service: a decoded send request becomes a well-formed (possibly
//! multi-part) mail message, routed through a pre-authenticated SMTP
//! transport, with every failure mapped to an HTTP-visible response.

pub mod dispatch;
pub mod mail;
pub mod message;
pub mod transport;
