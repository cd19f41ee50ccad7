//! Diagnostics over IP (ISO 13400): wire codecs and the responder's
//! discovery and session logic, with verified contracts.

pub mod message;
pub mod doip_server;
pub mod session;
pub mod doip_client;
