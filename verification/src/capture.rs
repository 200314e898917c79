//! Passive capture sessions.
//!
//! A capture runs the remote capture tool with its stream wired to standard
//! output, and stores the bytes in a fresh file or an in-memory buffer. The
//! sink is resolved before any remote process starts, so a pre-existing
//! output file is reported without ever invoking the remote tool. The
//! stream's internal structure is not validated here; corrupt or truncated
//! captures are discovered by downstream consumers.

use vstd::prelude::*;

use crate::text::dec_seq;
use crate::text::str_views;
use crate::text::u64_to_dec;

verus! {

/// A condition telling the remote capture tool when to stop capturing.
#[derive(Debug, Clone, Copy, PartialEq, Eq, Structural)]
pub enum StopCondition {
    /// Stop after this many seconds.
    Duration(u64),
    /// Stop after capturing this many packets.
    Packets(u32),
}

/// The autostop expression the capture tool understands for a stop
/// condition.
pub open spec fn autostop_seq(sc: StopCondition) -> Seq<char> {
    match sc {
        StopCondition::Duration(secs) => "duration:"@ + dec_seq(secs as nat),
        StopCondition::Packets(n) => "packets:"@ + dec_seq(n as nat),
    }
}

impl StopCondition {
    /// Renders the condition as the capture tool's autostop expression.
    pub fn autostop_expr(&self) -> (r: String)
        ensures
            r@ == autostop_seq(*self),
    {
        match self {
            StopCondition::Duration(secs) => {
                let mut s = "duration:".to_owned();
                s.append(u64_to_dec(*secs).as_str());
                s
            },
            StopCondition::Packets(n) => {
                let mut s = "packets:".to_owned();
                s.append(u64_to_dec(*n as u64).as_str());
                s
            },
        }
    }
}

/// Mathematical image of `CaptureConfig`.
pub ghost struct CaptureConfigV {
    pub interface: Seq<char>,
    pub stop_condition: StopCondition,
    pub output_path: Option<Seq<char>>,
}

/// Options for one capture on a network interface.
#[derive(Debug)]
pub struct CaptureConfig {
    /// Name of the interface to capture on.
    pub interface: String,
    /// When to stop the capture.
    pub stop_condition: StopCondition,
    /// The path to save the capture to; useful when captures are large.
    ///
    /// The file must not yet exist; its parent directory must exist.
    pub output_path: Option<String>,
}

impl View for CaptureConfig {
    type V = CaptureConfigV;

    open spec fn view(&self) -> CaptureConfigV {
        CaptureConfigV {
            interface: self.interface@,
            stop_condition: self.stop_condition,
            output_path: match self.output_path {
                Some(ref p) => Some(p@),
                None => None,
            },
        }
    }
}

/// Mathematical image of `Capture`.
pub ghost enum CaptureV {
    File(Seq<char>),
    Buffer(Seq<u8>),
}

/// A finished wireless capture in pcap-next-generation format.
///
/// The format is not checked after the capture and may hold invalid data.
#[derive(Debug)]
pub enum Capture {
    /// The capture was streamed into the file at this path.
    File(String),
    /// The capture is stored in memory.
    Buffer(Vec<u8>),
}

impl View for Capture {
    type V = CaptureV;

    open spec fn view(&self) -> CaptureV {
        match self {
            Capture::File(p) => CaptureV::File(p@),
            Capture::Buffer(b) => CaptureV::Buffer(b@),
        }
    }
}

/// An error while setting up or finishing a capture.
#[derive(Debug)]
pub enum CaptureError {
    /// The configured output file already exists; nothing was started.
    OutputExists(String),
    /// The remote capture tool exited with this non-success status.
    RemoteFailed(Option<i32>),
}

/// The command line that runs the remote capture tool for a configuration:
/// pcap-next-generation output, the configured interface, the autostop
/// expression, and the capture stream written to standard output.
pub open spec fn capture_argv(c: CaptureConfigV) -> Seq<Seq<char>> {
    seq![
        "tshark"@,
        "-F"@,
        "pcapng"@,
        "--interface"@,
        c.interface,
        "--autostop"@,
        autostop_seq(c.stop_condition),
        "-w"@,
        "-"@,
    ]
}

/// A resolved capture: the sink the bytes will go to and the command line to
/// run remotely.
#[derive(Debug)]
pub struct CapturePlan {
    /// Where the capture bytes are stored: a fresh file at the configured
    /// path, or an initially empty buffer.
    pub sink: Capture,
    /// The remote command line, program name first.
    pub args: Vec<String>,
}

impl CaptureConfig {
    /// Builds the remote command line for this configuration.
    pub fn command_args(&self) -> (r: Vec<String>)
        ensures
            str_views(r@) == capture_argv(self@),
    {
        let mut args: Vec<String> = Vec::new();
        args.push("tshark".to_owned());
        args.push("-F".to_owned());
        args.push("pcapng".to_owned());
        args.push("--interface".to_owned());
        args.push(self.interface.clone());
        args.push("--autostop".to_owned());
        args.push(self.stop_condition.autostop_expr());
        args.push("-w".to_owned());
        args.push("-".to_owned());
        proof {
            assert(str_views(args@) =~= capture_argv(self@));
        }
        args
    }

    /// Resolves the sink and the remote command line, before any remote side
    /// effect. `output_exists` says whether a file is already present at the
    /// configured output path; if one is, the capture is refused here and the
    /// remote tool is never invoked.
    pub fn plan(&self, output_exists: bool) -> (r: Result<CapturePlan, CaptureError>)
        ensures
            r is Err <==> self@.output_path is Some && output_exists,
            r is Err ==> (r->Err_0 matches CaptureError::OutputExists(p) && Some(p@)
                == self@.output_path),
            r is Ok ==> ({
                let plan = r->Ok_0;
                &&& str_views(plan.args@) == capture_argv(self@)
                &&& (self@.output_path matches Some(p) ==> plan.sink@ == CaptureV::File(p))
                &&& (self@.output_path is None ==> plan.sink@ == CaptureV::Buffer(Seq::empty()))
            }),
    {
        let sink = match &self.output_path {
            Some(path) => {
                if output_exists {
                    return Err(CaptureError::OutputExists(path.clone()));
                }
                Capture::File(path.clone())
            },
            None => Capture::Buffer(Vec::new()),
        };
        Ok(CapturePlan { sink, args: self.command_args() })
    }
}

/// Finishes a capture: keeps the filled sink exactly when the remote tool
/// exited successfully, and reports the tool's status otherwise. A non-zero
/// remote exit is this component's own failure, not data.
pub fn finish_capture(sink: Capture, status_code: Option<i32>) -> (r: Result<Capture, CaptureError>)
    ensures
        r is Ok <==> status_code == Some(0i32),
        r is Ok ==> r->Ok_0@ == sink@,
        r is Err ==> (r->Err_0 matches CaptureError::RemoteFailed(c) && c == status_code),
{
    let ok = match status_code {
        Some(c) => c == 0,
        None => false,
    };
    if ok {
        Ok(sink)
    } else {
        Err(CaptureError::RemoteFailed(status_code))
    }
}

} // verus!
