//! The coordinated monitoring protocol.
//!
//! A monitoring run moves through a small state machine: it is configured,
//! optionally discovers association identifiers while the targets join the
//! network, then captures on every monitor host, and ends completed or
//! aborted. This module holds every decision of that protocol; the
//! surrounding process performs the remote commands each step asks for and
//! feeds the outcomes back in.

use vstd::prelude::*;

use crate::capture::CaptureConfig;
use crate::capture::CaptureConfigV;
use crate::capture::StopCondition;
use crate::capture::Capture;
use crate::connection::associate_argv;
use crate::connection::associate_command;
use crate::discovery::AidAssignment;
use crate::discovery::DiscoveryError;
use crate::discovery::aid_lines;
use crate::discovery::aids_parse_ok;
use crate::discovery::assign_aids;
use crate::discovery::driver_supported;
use crate::discovery::extract_aids;
use crate::discovery::parse_aid;
use crate::fanout::all_ok;
use crate::fanout::collect_or_first_error;
use crate::fanout::ok_values;
use crate::hosts::Host;
use crate::hosts::HostId;
use crate::hosts::Hosts;
use crate::text::opt_str_view;
use crate::text::str_views;

verus! {

/// An error while starting a monitoring run, found before any capture is
/// attempted.
#[derive(Debug)]
pub enum MonitorError {
    /// This configured host identifier does not resolve in the registry.
    UnknownHost(HostId),
    /// Identifier discovery was requested but no monitor host is configured.
    NoMonitorHost,
}

/// Where a monitoring run stands.
#[derive(Debug, Clone, Copy, PartialEq, Eq, Structural)]
pub enum MonitorPhase {
    /// Association identifiers are being discovered.
    Discovering,
    /// Captures are running on the monitor hosts.
    Capturing,
    /// Every capture finished and the results were handed out.
    Completed,
    /// The run was abandoned; all results are discarded.
    Aborted,
}

/// Configuration of one monitoring run; consumed by `start`.
#[derive(Debug)]
pub struct MonitorConfig {
    /// The SSID of the network to monitor.
    pub ssid: String,
    /// The BSSID of the network to monitor.
    pub bssid: String,
    /// The hosts that will perform the monitoring.
    pub monitors: Vec<HostId>,
    /// The hosts to monitor.
    pub targets: Vec<HostId>,
    /// How long each capture should last, in seconds.
    pub duration_secs: u64,
    /// The directory the captures are written to; in-memory buffers are used
    /// when unset.
    pub output_path: Option<String>,
    /// The radio frequency the network uses, in megahertz.
    pub frequency: u32,
    /// The radio bandwidth the network uses, in megahertz.
    pub bandwidth: u32,
    /// If true, gathers the association identifiers of the target hosts and
    /// assigns each one to a different monitor device before capturing.
    pub set_aids: bool,
}

/// A live monitoring run.
#[derive(Debug)]
pub struct Monitor {
    /// The resolved monitor hosts, in configuration order.
    pub monitor_hosts: Vec<Host>,
    /// The resolved target hosts, in configuration order.
    pub target_hosts: Vec<Host>,
    /// The SSID of the monitored network.
    pub ssid: String,
    /// The BSSID of the monitored network.
    pub bssid: String,
    /// How long each capture lasts, in seconds.
    pub duration_secs: u64,
    /// The directory the captures are written to, if any.
    pub output_path: Option<String>,
    /// Where the run stands.
    pub phase: MonitorPhase,
}

impl MonitorConfig {
    /// Starts a monitoring run: resolves the monitor and target host lists
    /// against the registry, failing on the first unknown identifier before
    /// any remote side effect, and refusing discovery without a monitor
    /// host. The returned run is discovering if identifier discovery was
    /// requested, else already capturing.
    pub fn start(self, hosts: &Hosts) -> (r: Result<Monitor, MonitorError>)
        ensures
            r is Ok <==> ({
                &&& forall|i: int|
                    0 <= i < self.monitors@.len() ==> hosts.contains_id(
                        #[trigger] self.monitors@[i]@,
                    )
                &&& forall|i: int|
                    0 <= i < self.targets@.len() ==> hosts.contains_id(#[trigger] self.targets@[i]@)
                &&& (self.set_aids ==> self.monitors@.len() > 0)
            }),
            r is Ok ==> ({
                let m = r->Ok_0;
                &&& m.monitor_hosts@.len() == self.monitors@.len()
                &&& forall|i: int|
                    0 <= i < m.monitor_hosts@.len() ==> #[trigger] m.monitor_hosts@[i]@
                        == hosts.host_view_of(self.monitors@[i]@)
                &&& forall|i: int|
                    0 <= i < m.monitor_hosts@.len() ==> #[trigger] m.monitor_hosts@[i]@.id
                        == self.monitors@[i]@
                &&& m.target_hosts@.len() == self.targets@.len()
                &&& forall|i: int|
                    0 <= i < m.target_hosts@.len() ==> #[trigger] m.target_hosts@[i]@
                        == hosts.host_view_of(self.targets@[i]@)
                &&& forall|i: int|
                    0 <= i < m.target_hosts@.len() ==> #[trigger] m.target_hosts@[i]@.id
                        == self.targets@[i]@
                &&& m.ssid@ == self.ssid@
                &&& m.bssid@ == self.bssid@
                &&& m.duration_secs == self.duration_secs
                &&& opt_str_view(m.output_path) == opt_str_view(self.output_path)
                &&& m.phase == (if self.set_aids {
                    MonitorPhase::Discovering
                } else {
                    MonitorPhase::Capturing
                })
            }),
            r is Err ==> ({
                let missing_monitor = exists|k: int|
                    0 <= k < self.monitors@.len() && !hosts.contains_id(
                        #[trigger] self.monitors@[k]@,
                    );
                let missing_target = exists|k: int|
                    0 <= k < self.targets@.len() && !hosts.contains_id(#[trigger] self.targets@[k]@);
                &&& missing_monitor ==> (r->Err_0 matches MonitorError::UnknownHost(u)
                    && exists|k: int|
                    {
                        &&& 0 <= k < self.monitors@.len()
                        &&& !hosts.contains_id(#[trigger] self.monitors@[k]@)
                        &&& u@ == self.monitors@[k]@
                        &&& forall|j: int|
                            0 <= j < k ==> hosts.contains_id(#[trigger] self.monitors@[j]@)
                    })
                &&& !missing_monitor && missing_target ==> (r->Err_0 matches MonitorError::UnknownHost(u)
                    && exists|k: int|
                    {
                        &&& 0 <= k < self.targets@.len()
                        &&& !hosts.contains_id(#[trigger] self.targets@[k]@)
                        &&& u@ == self.targets@[k]@
                        &&& forall|j: int|
                            0 <= j < k ==> hosts.contains_id(#[trigger] self.targets@[j]@)
                    })
                &&& !missing_monitor && !missing_target ==> r->Err_0 is NoMonitorHost
                    && self.set_aids && self.monitors@.len() == 0
            }),
    {
        let monitor_hosts = match hosts.get_many(&self.monitors) {
            Ok(v) => v,
            Err(id) => {
                return Err(MonitorError::UnknownHost(id));
            },
        };
        let target_hosts = match hosts.get_many(&self.targets) {
            Ok(v) => v,
            Err(id) => {
                return Err(MonitorError::UnknownHost(id));
            },
        };
        if self.set_aids && monitor_hosts.len() == 0 {
            return Err(MonitorError::NoMonitorHost);
        }
        let phase = if self.set_aids {
            MonitorPhase::Discovering
        } else {
            MonitorPhase::Capturing
        };
        Ok(
            Monitor {
                monitor_hosts,
                target_hosts,
                ssid: self.ssid,
                bssid: self.bssid,
                duration_secs: self.duration_secs,
                output_path: self.output_path,
                phase,
            },
        )
    }
}

/// The capture-time display filter that keeps only association-response
/// frames of the monitored network, so the discovery output stays small.
pub open spec fn discovery_filter(bssid: Seq<char>) -> Seq<char> {
    "wlan.fc.type_subtype == 0x0001 && wlan.bssid == \""@ + bssid + "\""@
}

/// The command line of the discovery capture: field extraction of the
/// association identifier on the monitoring interface, restricted by the
/// display filter.
pub open spec fn discovery_argv(bssid: Seq<char>) -> Seq<Seq<char>> {
    seq![
        "sudo"@,
        "tshark"@,
        "-T"@,
        "fields"@,
        "--interface"@,
        "mon0"@,
        "-e"@,
        "wlan.fixed.aid"@,
        "-Y"@,
        discovery_filter(bssid),
    ]
}

/// The output file of one monitor host's capture under an output directory.
pub open spec fn capture_path(dir: Seq<char>, id: Seq<char>) -> Seq<char> {
    dir + "/"@ + id + ".pcapng"@
}

impl Monitor {
    /// The host the discovery capture runs on: the first configured monitor
    /// host.
    pub fn discovery_host(&self) -> (r: &Host)
        requires
            self.phase is Discovering,
            self.monitor_hosts@.len() > 0,
        ensures
            r@ == self.monitor_hosts@[0]@,
    {
        &self.monitor_hosts[0]
    }

    /// Builds the command line of the discovery capture for the monitored
    /// network.
    pub fn discovery_command(&self) -> (r: Vec<String>)
        requires
            self.phase is Discovering,
        ensures
            str_views(r@) == discovery_argv(self.bssid@),
    {
        let mut line = "wlan.fc.type_subtype == 0x0001 && wlan.bssid == \"".to_owned();
        line.append(self.bssid.as_str());
        line.append("\"");
        let mut args: Vec<String> = Vec::new();
        args.push("sudo".to_owned());
        args.push("tshark".to_owned());
        args.push("-T".to_owned());
        args.push("fields".to_owned());
        args.push("--interface".to_owned());
        args.push("mon0".to_owned());
        args.push("-e".to_owned());
        args.push("wlan.fixed.aid".to_owned());
        args.push("-Y".to_owned());
        args.push(line);
        proof {
            assert(str_views(args@) =~= discovery_argv(self.bssid@));
        }
        args
    }

    /// Builds the join command for every target host: each target connects
    /// to the monitored network, without a credential, so the discovery
    /// capture can observe its association.
    pub fn join_commands(&self) -> (r: Vec<(HostId, Vec<String>)>)
        requires
            self.phase is Discovering,
        ensures
            r@.len() == self.target_hosts@.len(),
            forall|i: int|
                0 <= i < r@.len() ==> (#[trigger] r@[i]).0@ == self.target_hosts@[i].id@
                    && str_views(r@[i].1@) == associate_argv(self.ssid@, None),
    {
        let n = self.target_hosts.len();
        let mut out: Vec<(HostId, Vec<String>)> = Vec::new();
        let mut i: usize = 0;
        while i < n
            invariant
                i <= n,
                n == self.target_hosts@.len(),
                out@.len() == i,
                forall|j: int|
                    0 <= j < i ==> (#[trigger] out@[j]).0@ == self.target_hosts@[j].id@
                        && str_views(out@[j].1@) == associate_argv(self.ssid@, None),
            decreases n - i,
        {
            let id = self.target_hosts[i].id.clone();
            let cmd = associate_command(self.ssid.as_str(), None);
            out.push((id, cmd));
            i = i + 1;
        }
        out
    }

    /// Consumes the discovery capture's textual output: parses the
    /// identifiers and assigns them to the monitor hosts by position. On
    /// success the run moves on to capturing; any failure aborts the run
    /// before any capture is attempted.
    pub fn process_discovery(&mut self, text: &str) -> (r: Result<
        Vec<AidAssignment>,
        DiscoveryError,
    >)
        requires
            old(self).phase is Discovering,
        ensures
            final(self).monitor_hosts == old(self).monitor_hosts,
            final(self).target_hosts == old(self).target_hosts,
            final(self).ssid == old(self).ssid,
            final(self).bssid == old(self).bssid,
            final(self).duration_secs == old(self).duration_secs,
            final(self).output_path == old(self).output_path,
            r is Ok <==> ({
                &&& aids_parse_ok(text@)
                &&& aid_lines(text@).len() >= old(self).monitor_hosts@.len()
                &&& forall|i: int|
                    0 <= i < old(self).monitor_hosts@.len() ==> driver_supported(
                        #[trigger] old(self).monitor_hosts@[i]@,
                    )
            }),
            final(self).phase == (if r is Ok {
                MonitorPhase::Capturing
            } else {
                MonitorPhase::Aborted
            }),
            r is Ok ==> ({
                let out = r->Ok_0;
                &&& out@.len() == old(self).monitor_hosts@.len()
                &&& forall|i: int|
                    0 <= i < out@.len() ==> (#[trigger] out@[i]).host_id@ == old(
                        self,
                    ).monitor_hosts@[i].id@ && Some(out@[i].aid) == parse_aid(aid_lines(text@)[i])
            }),
            r is Err && !aids_parse_ok(text@) ==> (r->Err_0 matches DiscoveryError::BadAidLine(bad)
                && exists|k: int|
                {
                    &&& 0 <= k < aid_lines(text@).len()
                    &&& #[trigger] parse_aid(aid_lines(text@)[k]) is None
                    &&& bad@ == aid_lines(text@)[k]
                    &&& forall|j: int|
                        0 <= j < k ==> #[trigger] parse_aid(aid_lines(text@)[j]) is Some
                }),
            r is Err && aids_parse_ok(text@) && aid_lines(text@).len() < old(
                self,
            ).monitor_hosts@.len() ==> (r->Err_0 matches DiscoveryError::AidShortfall { expected, got }
                && expected == old(self).monitor_hosts@.len() && got == aid_lines(text@).len()),
            r is Err && aids_parse_ok(text@) && aid_lines(text@).len() >= old(
                self,
            ).monitor_hosts@.len() ==> (r->Err_0 matches DiscoveryError::UnsupportedDriver {
                host,
                driver,
            } && exists|k: int|
                {
                    &&& 0 <= k < old(self).monitor_hosts@.len()
                    &&& !driver_supported(#[trigger] old(self).monitor_hosts@[k]@)
                    &&& host@ == old(self).monitor_hosts@[k].id@
                    &&& forall|j: int|
                        0 <= j < k ==> driver_supported(#[trigger] old(self).monitor_hosts@[j]@)
                }),
    {
        let aids = match extract_aids(text) {
            Ok(v) => v,
            Err(e) => {
                self.phase = MonitorPhase::Aborted;
                return Err(e);
            },
        };
        match assign_aids(&aids, &self.monitor_hosts) {
            Ok(assignments) => {
                self.phase = MonitorPhase::Capturing;
                Ok(assignments)
            },
            Err(e) => {
                self.phase = MonitorPhase::Aborted;
                Err(e)
            },
        }
    }

    /// Builds one capture configuration per monitor host: the monitoring
    /// interface, the configured duration, and, when an output directory is
    /// configured, one output file per host named after it.
    pub fn capture_configs(&self) -> (r: Vec<(HostId, CaptureConfig)>)
        requires
            self.phase is Capturing,
        ensures
            r@.len() == self.monitor_hosts@.len(),
            forall|i: int|
                0 <= i < r@.len() ==> (#[trigger] r@[i]).0@ == self.monitor_hosts@[i].id@
                    && r@[i].1@ == (CaptureConfigV {
                    interface: "mon0"@,
                    stop_condition: StopCondition::Duration(self.duration_secs),
                    output_path: match opt_str_view(self.output_path) {
                        Some(dir) => Some(capture_path(dir, self.monitor_hosts@[i].id@)),
                        None => None,
                    },
                }),
    {
        let n = self.monitor_hosts.len();
        let mut out: Vec<(HostId, CaptureConfig)> = Vec::new();
        let mut i: usize = 0;
        while i < n
            invariant
                i <= n,
                n == self.monitor_hosts@.len(),
                out@.len() == i,
                forall|j: int|
                    0 <= j < i ==> (#[trigger] out@[j]).0@ == self.monitor_hosts@[j].id@
                        && out@[j].1@ == (CaptureConfigV {
                        interface: "mon0"@,
                        stop_condition: StopCondition::Duration(self.duration_secs),
                        output_path: match opt_str_view(self.output_path) {
                            Some(dir) => Some(capture_path(dir, self.monitor_hosts@[j].id@)),
                            None => None,
                        },
                    }),
            decreases n - i,
        {
            let id = self.monitor_hosts[i].id.clone();
            let output_path = match &self.output_path {
                Some(dir) => {
                    let mut p = dir.clone();
                    p.append("/");
                    p.append(id.as_str());
                    p.append(".pcapng");
                    Some(p)
                },
                None => None,
            };
            let config = CaptureConfig {
                interface: "mon0".to_owned(),
                stop_condition: StopCondition::Duration(self.duration_secs),
                output_path,
            };
            out.push((id, config));
            i = i + 1;
        }
        out
    }

    /// Joins the finished captures, handed back one result per launched
    /// capture in completion order. Returns the mapping from host identifier
    /// to capture exactly when every capture succeeded; any failure fails
    /// the whole wait with the first error, and the other captures' results
    /// are discarded rather than returned as partial success.
    pub fn wait<E>(&mut self, results: Vec<Result<(HostId, Capture), E>>) -> (r: Result<
        Vec<(HostId, Capture)>,
        E,
    >)
        requires
            old(self).phase is Capturing,
        ensures
            final(self).monitor_hosts == old(self).monitor_hosts,
            final(self).target_hosts == old(self).target_hosts,
            final(self).ssid == old(self).ssid,
            final(self).bssid == old(self).bssid,
            final(self).duration_secs == old(self).duration_secs,
            final(self).output_path == old(self).output_path,
            r is Ok <==> all_ok(results@),
            r is Ok ==> r->Ok_0@ == ok_values(results@),
            r is Err ==> exists|k: int|
                {
                    &&& 0 <= k < results@.len()
                    &&& #[trigger] results@[k] is Err
                    &&& r->Err_0 == results@[k]->Err_0
                    &&& forall|j: int| 0 <= j < k ==> results@[j] is Ok
                },
            final(self).phase == (if r is Ok {
                MonitorPhase::Completed
            } else {
                MonitorPhase::Aborted
            }),
    {
        match collect_or_first_error(results) {
            Ok(v) => {
                self.phase = MonitorPhase::Completed;
                Ok(v)
            },
            Err(e) => {
                self.phase = MonitorPhase::Aborted;
                Err(e)
            },
        }
    }

    /// Abandons the run: every in-flight capture is to be cancelled and its
    /// result discarded.
    pub fn abort(&mut self)
        ensures
            final(self).phase is Aborted,
            final(self).monitor_hosts == old(self).monitor_hosts,
            final(self).target_hosts == old(self).target_hosts,
            final(self).ssid == old(self).ssid,
            final(self).bssid == old(self).bssid,
            final(self).duration_secs == old(self).duration_secs,
            final(self).output_path == old(self).output_path,
    {
        self.phase = MonitorPhase::Aborted;
    }
}

} // verus!
