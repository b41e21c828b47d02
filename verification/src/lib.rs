//! Building blocks of a passive network-observability agent.
//!
//! The centre of the crate is [`utils::net::h2pack`], a decoder for HTTP/2
//! compressed header blocks that tracks exactly how many octets every field
//! occupies, also for the fields it cannot resolve. Around it stand a word
//! mix for hashing ([`utils::hasher`]), the switch of the metric pipeline
//! ([`collector`]), the fixed values of the wire formats
//! ([`flow_generator`]) and the decisions of the control tool ([`ctl`]).
pub mod collector;
pub mod common;
pub mod ctl;
pub mod flow_generator;
pub mod utils;
