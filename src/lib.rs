//! A network-health monitor's core: resolving probe destinations, deciding
//! each tick of the probing loop, caching which network adapters are VPN
//! adapters, reading targets and VPN criteria from configuration blocks, and
//! planning the playback of the alert sound.
pub mod audit;
pub mod cli;
pub mod config;
pub mod dialog;
pub mod home;
pub mod latency;
pub mod ping;
pub mod schedule;
pub mod sound;
pub mod targets;
pub mod text;
pub mod vpn;
