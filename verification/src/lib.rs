//! Orchestration core for a distributed Wi-Fi measurement testbed.
//!
//! The crate models the decision logic of a controller that drives a fleet of
//! remote machines over persistent shell sessions: a validated host registry,
//! command fan-out with all-or-nothing aggregation, passive capture sessions,
//! and a two-phase monitoring protocol that discovers wireless association
//! identifiers and then records traffic on every monitor host.
//!
//! Everything here is plain, verified computation: the surrounding process
//! (SSH transport, the async runtime, the filesystem) feeds these functions
//! plain values and carries out the commands they build.

pub mod capture;
pub mod connection;
pub mod discovery;
pub mod fanout;
pub mod hosts;
pub mod iperf;
pub mod iwlwifi;
pub mod monitor;
pub mod package;
pub mod scripts;
pub mod text;
