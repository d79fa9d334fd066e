//! Bridge between a router's session-based management interface and a
//! pull-based metrics endpoint: which requests to send, how to read the
//! replies, and which samples the counters become.

pub mod decimal;
pub mod document;
pub mod envelope;
pub mod error;
pub mod metrics;
pub mod modem;
pub mod reply;
pub mod scrape;
pub mod xml;
