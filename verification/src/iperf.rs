//! Command construction for the iperf stress-test script.
//!
//! The script starts one iperf server per client on the access point, then
//! one client per sender host, while a monitoring run captures the traffic.
//! Everything the script decides — port allocation, bandwidth division, the
//! exact command lines — is computed here; the script itself only performs
//! the remote calls.

use vstd::prelude::*;

use crate::monitor::MonitorConfig;
use crate::text::ascii_case_eq;
use crate::text::dec_seq;
use crate::text::opt_str_view;
use crate::text::str_eq_ignore_ascii_case;
use crate::text::str_views;
use crate::text::trim_spec;
use crate::text::trim_spaces;
use crate::text::u64_to_dec;

verus! {

/// Extra capture time beyond the configured test duration, so the monitor
/// records the whole run.
pub const CAPTURE_LEEWAY_SECS: u64 = 4;

/// The port below the first allocated iperf port; server `i` and client `i`
/// both use this plus one plus `i`.
pub const IPERF_BASE_PORT: u64 = 5000;

/// How long to wait for the access point's iperf servers to wind down
/// before killing them, in seconds.
pub const SERVER_WAIT_TIMEOUT_SECS: u64 = 1;

/// In which direction the iperf test sends its traffic.
#[derive(Debug, Clone, Copy, PartialEq, Eq, Structural)]
pub enum Direction {
    Uplink,
    Downlink,
    Bidir,
}

/// The iperf flag selecting a test direction.
pub open spec fn direction_flag(d: Direction) -> Seq<char> {
    match d {
        Direction::Uplink => ""@,
        Direction::Downlink => "-R"@,
        Direction::Bidir => "--bidir"@,
    }
}

/// Arguments of the iperf stress test.
#[derive(Debug)]
pub struct IperfArgs {
    /// The host id of where the iperf servers run.
    pub server: String,
    /// The host ids that will run iperf clients.
    pub clients: Vec<String>,
    /// The host ids of the hosts that will capture the wireless traffic.
    pub monitors: Vec<String>,
    /// In which direction to perform the test.
    pub direction: Direction,
    /// How long the capture should last, in seconds.
    pub duration: u64,
    /// Whether to use UDP; unset means UDP.
    pub udp: Option<bool>,
    /// The total throughput all clients should use together, in bits per
    /// second, divided equally over the clients; zero means unlimited.
    pub total_throughput: u64,
    /// The modulation-and-coding setting to configure, if any; `auto`
    /// selects automatic rate control.
    pub mcs: Option<String>,
    /// The frequency the access point uses, in megahertz.
    pub frequency: u32,
    /// The bandwidth the access point uses, in megahertz.
    pub bandwidth: u32,
    /// The SSID of the access point.
    pub ssid: String,
    /// The BSSID of the access point.
    pub bssid: String,
}

/// An error of the iperf script's own decisions.
#[derive(Debug)]
pub enum IperfError {
    /// The access point reported no address for its wireless interface.
    NoServerAddress,
}

/// The shell line that prints the IPv4 address of an interface.
pub open spec fn server_ip_line(ifname: Seq<char>) -> Seq<char> {
    "ip -4 a show "@ + ifname + " | awk '/inet/ {print $2}' | cut -d/ -f1"@
}

/// Builds the shell line that reads the access point's interface address.
pub fn server_ip_command(ifname: &str) -> (r: String)
    ensures
        r@ == server_ip_line(ifname@),
{
    let mut s = "ip -4 a show ".to_owned();
    s.append(ifname);
    s.append(" | awk '/inet/ {print $2}' | cut -d/ -f1");
    s
}

/// Reads the address out of that shell line's output: the trimmed text,
/// which must be non-empty.
pub fn server_ip_from_output(output: &str) -> (r: Result<String, IperfError>)
    ensures
        r is Ok <==> trim_spec(output@).len() > 0,
        r is Ok ==> r->Ok_0@ == trim_spec(output@),
        r is Err ==> r->Err_0 is NoServerAddress,
{
    let trimmed = trim_spaces(output);
    if trimmed.as_str().is_empty() {
        Err(IperfError::NoServerAddress)
    } else {
        Ok(trimmed)
    }
}

/// The shell line that configures the access point's modulation and coding:
/// an `auto` setting, compared without regard to letter case, clears the
/// fixed bitrate.
pub open spec fn mcs_line(mcs: Seq<char>) -> Seq<char> {
    "iw dev phy1-ap0 set bitrates "@ + (if ascii_case_eq(mcs, "auto"@) {
        ""@
    } else {
        mcs
    })
}

/// Builds the shell line that configures the modulation and coding.
pub fn mcs_command(mcs: &str) -> (r: String)
    ensures
        r@ == mcs_line(mcs@),
{
    let mut s = "iw dev phy1-ap0 set bitrates ".to_owned();
    if !str_eq_ignore_ascii_case(mcs, "auto") {
        s.append(mcs);
    }
    proof {
        reveal_strlit("");
        assert(s@ =~= mcs_line(mcs@));
    }
    s
}

/// The shell line that starts one iperf server bound to a device, on a
/// port, exiting after one connection.
pub open spec fn iperf_server_line(bind_dev: Seq<char>, port: nat) -> Seq<char> {
    "iperf3 -s --bind-dev "@ + bind_dev + " -p "@ + dec_seq(port) + " -1"@
}

/// Builds one iperf server line per client: server `i` listens on port
/// `base_port + 1 + i`.
pub fn iperf_server_commands(bind_dev: &str, base_port: u64, count: usize) -> (r: Vec<String>)
    requires
        base_port + count <= 65535,
    ensures
        r@.len() == count,
        forall|i: int|
            0 <= i < count ==> #[trigger] r@[i]@ == iperf_server_line(
                bind_dev@,
                (base_port + 1 + i) as nat,
            ),
{
    let mut out: Vec<String> = Vec::new();
    let mut i: usize = 0;
    while i < count
        invariant
            i <= count,
            base_port + count <= 65535,
            out@.len() == i,
            forall|j: int|
                0 <= j < i ==> #[trigger] out@[j]@ == iperf_server_line(
                    bind_dev@,
                    (base_port + 1 + j) as nat,
                ),
        decreases count - i,
    {
        let port = base_port + 1 + (i as u64);
        let mut s = "iperf3 -s --bind-dev ".to_owned();
        s.append(bind_dev);
        s.append(" -p ");
        s.append(u64_to_dec(port).as_str());
        s.append(" -1");
        out.push(s);
        i = i + 1;
    }
    out
}

/// The shell line that starts one iperf client against the server address
/// and port, optionally bound to a device, with its bandwidth share, the
/// UDP flag, and the direction flag.
pub open spec fn iperf_client_line(
    server_ip: Seq<char>,
    port: nat,
    bind_dev: Option<Seq<char>>,
    bandwidth: nat,
    udp: bool,
    direction: Direction,
) -> Seq<char> {
    "iperf3 -c "@ + server_ip + " -p "@ + dec_seq(port) + " "@ + (match bind_dev {
        Some(d) => "--bind-dev "@ + d,
        None => ""@,
    }) + " -b "@ + dec_seq(bandwidth) + " "@ + (if udp {
        "-u"@
    } else {
        ""@
    }) + " "@ + direction_flag(direction)
}

/// Builds one iperf client line per sender: client `i` connects to port
/// `base_port + 1 + i`, bound to its host's interface when one is
/// configured, and the total throughput is divided equally over the
/// clients.
pub fn iperf_client_commands(
    server_ip: &str,
    base_port: u64,
    bind_devs: &Vec<Option<String>>,
    total_throughput: u64,
    udp: bool,
    direction: Direction,
) -> (r: Vec<String>)
    requires
        bind_devs@.len() > 0,
        base_port + bind_devs@.len() <= 65535,
    ensures
        r@.len() == bind_devs@.len(),
        forall|i: int|
            0 <= i < r@.len() ==> #[trigger] r@[i]@ == iperf_client_line(
                server_ip@,
                (base_port + 1 + i) as nat,
                opt_str_view(bind_devs@[i]),
                (total_throughput as nat) / bind_devs@.len(),
                udp,
                direction,
            ),
{
    let count = bind_devs.len();
    let share = total_throughput / (count as u64);
    proof {
        assert(share == (total_throughput as nat) / bind_devs@.len());
    }
    let mut out: Vec<String> = Vec::new();
    let mut i: usize = 0;
    while i < count
        invariant
            i <= count,
            count == bind_devs@.len(),
            base_port + count <= 65535,
            share == (total_throughput as nat) / bind_devs@.len(),
            out@.len() == i,
            forall|j: int|
                0 <= j < i ==> #[trigger] out@[j]@ == iperf_client_line(
                    server_ip@,
                    (base_port + 1 + j) as nat,
                    opt_str_view(bind_devs@[j]),
                    (total_throughput as nat) / bind_devs@.len(),
                    udp,
                    direction,
                ),
        decreases count - i,
    {
        let port = base_port + 1 + (i as u64);
        let mut s = "iperf3 -c ".to_owned();
        s.append(server_ip);
        s.append(" -p ");
        s.append(u64_to_dec(port).as_str());
        s.append(" ");
        match &bind_devs[i] {
            Some(d) => {
                s.append("--bind-dev ");
                s.append(d.as_str());
            },
            None => {},
        }
        s.append(" -b ");
        s.append(u64_to_dec(share).as_str());
        s.append(" ");
        if udp {
            s.append("-u");
        }
        s.append(" ");
        match direction {
            Direction::Uplink => {},
            Direction::Downlink => s.append("-R"),
            Direction::Bidir => s.append("--bidir"),
        }
        proof {
            reveal_strlit("");
            assert(s@ =~= iperf_client_line(
                server_ip@,
                (base_port + 1 + i) as nat,
                opt_str_view(bind_devs@[i as int]),
                (total_throughput as nat) / bind_devs@.len(),
                udp,
                direction,
            ));
        }
        out.push(s);
        i = i + 1;
    }
    out
}

impl IperfArgs {
    /// The monitoring configuration the iperf test runs under: the resolved
    /// sender hosts are the targets, the capture lasts the test duration
    /// plus some leeway, captures go to the output directory, and
    /// association identifiers are discovered.
    pub fn monitor_config(&self, target_ids: Vec<String>, out_path: &str) -> (r: MonitorConfig)
        requires
            self.duration + CAPTURE_LEEWAY_SECS <= u64::MAX,
        ensures
            r.ssid@ == self.ssid@,
            r.bssid@ == self.bssid@,
            str_views(r.monitors@) == str_views(self.monitors@),
            r.targets@ == target_ids@,
            r.duration_secs == self.duration + CAPTURE_LEEWAY_SECS,
            opt_str_view(r.output_path) == Some(out_path@),
            r.frequency == self.frequency,
            r.bandwidth == self.bandwidth,
            r.set_aids,
    {
        let mut monitors: Vec<String> = Vec::new();
        let n = self.monitors.len();
        let mut i: usize = 0;
        while i < n
            invariant
                i <= n,
                n == self.monitors@.len(),
                monitors@.len() == i,
                forall|j: int| 0 <= j < i ==> #[trigger] monitors@[j]@ == self.monitors@[j]@,
            decreases n - i,
        {
            monitors.push(self.monitors[i].clone());
            i = i + 1;
        }
        proof {
            assert(str_views(monitors@) =~= str_views(self.monitors@));
        }
        MonitorConfig {
            ssid: self.ssid.clone(),
            bssid: self.bssid.clone(),
            monitors,
            targets: target_ids,
            duration_secs: self.duration + CAPTURE_LEEWAY_SECS,
            output_path: Some(out_path.to_owned()),
            frequency: self.frequency,
            bandwidth: self.bandwidth,
            set_aids: true,
        }
    }
}

} // verus!
