//! The experiment scripts the controller can run.
//!
//! Scripts are consumers of the orchestration core: they resolve hosts,
//! start a monitoring run, and drive traffic. Their remote calls live with
//! the surrounding process; their decisions live in the modules this one
//! gathers.

use vstd::prelude::*;

use crate::iperf::IperfArgs;

verus! {

/// The specific script to run.
#[derive(Debug)]
pub enum Script {
    /// Run an iperf stress test with multiple nodes.
    Iperf(IperfArgs),
}

/// Arguments of the downlink stress test, an earlier fixed-direction
/// variant of the iperf script kept for its recorded experiments; it drives
/// the same command lines with the downlink direction.
#[derive(Debug)]
pub struct DowlinkArgs {
    /// The host id of the wireless access point.
    pub access_point: String,
    /// The host ids of the hosts that will capture the wireless traffic.
    pub monitors: Vec<String>,
    /// How long the capture should last, in seconds.
    pub duration: u64,
    /// Whether to use UDP; unset means UDP.
    pub udp: Option<bool>,
    /// The total bandwidth all clients should use together, divided equally
    /// over the clients; zero means unlimited.
    pub total_bandwidth: u64,
    /// The modulation-and-coding setting to configure, if any.
    pub mcs: Option<String>,
}

} // verus!
