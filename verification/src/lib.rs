//! Network-isolation controller core.
//!
//! The node this library governs is always in exactly one of two network
//! postures: isolated behind the packet filter with only a designated peer
//! reachable, or open to the internet with the peer blocked.  This crate holds
//! the verified mode-transition engine: the posture state machine, the two
//! fixed firewall rulesets, the shared-secret parsing, and the authenticated
//! peer-notification request builder.  Process plumbing (the HTTP listener,
//! spawning the firewall tool, the clock, logging) lives outside and hands
//! this library plain values.

pub mod controller;
pub mod http;
pub mod mode;
pub mod notify;
pub mod rules;
pub mod secret;
pub mod text;

pub use mode::Mode;
