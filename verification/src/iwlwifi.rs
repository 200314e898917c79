//! Driver control for systems with the `iwlwifi` wireless driver.
//!
//! A monitoring radio without full wireless state tracking is tuned to one
//! peer by writing the peer's association identifier, in hexadecimal, and
//! the network's BSSID into the driver's control file.

use vstd::prelude::*;

use crate::text::hex_seq;
use crate::text::str_views;
use crate::text::u64_to_hex;

verus! {

/// An error while changing the association identifier on a monitor host.
#[derive(Debug)]
pub enum DriverError {
    /// The driver-control command exited with this non-success status.
    SetAidFailed(Option<i32>),
}

/// The privileged one-line shell command that sets the association
/// identifier: the identifier in hexadecimal and the BSSID, written to the
/// driver's sniffer-parameter file.
pub open spec fn set_aid_line(aid: u16, bssid: Seq<char>) -> Seq<char> {
    "echo "@ + hex_seq(aid as nat) + " "@ + bssid
        + " > /sys/kernel/debug/iwlwifi/*/iwlmvm/he_sniffer_params"@
}

/// The command line that runs the driver-control line through a shell.
pub open spec fn set_aid_argv(aid: u16, bssid: Seq<char>) -> Seq<Seq<char>> {
    seq!["sudo"@, "sh"@, "-c"@, set_aid_line(aid, bssid)]
}

/// Builds the command line that assigns the association identifier `aid` to
/// the monitoring interface, for the network with the given BSSID.
pub fn set_aid_command(aid: u16, bssid: &str) -> (r: Vec<String>)
    ensures
        str_views(r@) == set_aid_argv(aid, bssid@),
{
    let mut line = "echo ".to_owned();
    line.append(u64_to_hex(aid as u64).as_str());
    line.append(" ");
    line.append(bssid);
    line.append(" > /sys/kernel/debug/iwlwifi/*/iwlmvm/he_sniffer_params");
    let mut args: Vec<String> = Vec::new();
    args.push("sudo".to_owned());
    args.push("sh".to_owned());
    args.push("-c".to_owned());
    args.push(line);
    proof {
        assert(str_views(args@) =~= set_aid_argv(aid, bssid@));
    }
    args
}

/// Interprets the driver-control command's exit: success exactly on a zero
/// exit code, and the status attached to the error otherwise.
pub fn set_aid_result(status_code: Option<i32>) -> (r: Result<(), DriverError>)
    ensures
        r is Ok <==> status_code == Some(0i32),
        r is Err ==> (r->Err_0 matches DriverError::SetAidFailed(c) && c == status_code),
{
    match status_code {
        Some(c) if c == 0 => Ok(()),
        _ => Err(DriverError::SetAidFailed(status_code)),
    }
}

} // verus!
