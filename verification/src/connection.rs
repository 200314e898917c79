//! Joining a wireless network from a target host.
//!
//! The join is a single remote command; success or failure is communicated
//! through the process exit status only.

use vstd::prelude::*;

use crate::text::str_views;

verus! {

/// An error while associating a host with a wireless network.
#[derive(Debug)]
pub enum ConnectionError {
    /// The join command exited with this non-success status.
    JoinFailed(Option<i32>),
}

/// The command line that connects a host to a wireless network, with the
/// optional credential appended.
pub open spec fn associate_argv(ssid: Seq<char>, password: Option<Seq<char>>) -> Seq<Seq<char>> {
    let base = seq!["sudo"@, "nmcli"@, "device"@, "wifi"@, "connect"@, ssid];
    match password {
        Some(p) => base + seq!["password"@, p],
        None => base,
    }
}

/// Builds the command line that joins the network `ssid`, optionally with a
/// password.
pub fn associate_command(ssid: &str, password: Option<&str>) -> (r: Vec<String>)
    ensures
        str_views(r@) == associate_argv(
            ssid@,
            match password {
                Some(p) => Some(p@),
                None => None,
            },
        ),
{
    let mut args: Vec<String> = Vec::new();
    args.push("sudo".to_owned());
    args.push("nmcli".to_owned());
    args.push("device".to_owned());
    args.push("wifi".to_owned());
    args.push("connect".to_owned());
    args.push(ssid.to_owned());
    match password {
        Some(p) => {
            args.push("password".to_owned());
            args.push(p.to_owned());
            proof {
                assert(str_views(args@) =~= associate_argv(ssid@, Some(p@)));
            }
        },
        None => {
            proof {
                assert(str_views(args@) =~= associate_argv(ssid@, None));
            }
        },
    }
    args
}

/// Interprets the join command's exit: success exactly on a zero exit code,
/// and the status attached to the error otherwise.
pub fn associate_result(status_code: Option<i32>) -> (r: Result<(), ConnectionError>)
    ensures
        r is Ok <==> status_code == Some(0i32),
        r is Err ==> (r->Err_0 matches ConnectionError::JoinFailed(c) && c == status_code),
{
    match status_code {
        Some(c) if c == 0 => Ok(()),
        _ => Err(ConnectionError::JoinFailed(status_code)),
    }
}

} // verus!
