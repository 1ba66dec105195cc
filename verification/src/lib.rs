//! WHOIS resolution logic and the formatting of WHOIS and DNS answers.
//!
//! The library decides which WHOIS server to ask for a target, builds the
//! query line, judges what came back, falls back to the root authority and
//! lays the answer out for display. It opens no connection itself: a caller
//! performs each exchange and hands the outcome back.

pub mod text;
pub mod tld;
pub mod registry;
pub mod transport;
pub mod resolver;
pub mod style;
pub mod present;
pub mod dns;
