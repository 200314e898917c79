//! Remote package installation support.
//!
//! Tools that experiments need on a remote host are named abstractly; the
//! package name and the installation command depend on the host's operating
//! system.

use vstd::prelude::*;

use crate::hosts::HostOs;
use crate::hosts::OsV;
use crate::text::str_views;

verus! {

/// A tool that can be installed on a remote host.
#[derive(Debug, Clone, Copy, PartialEq, Eq, Structural)]
pub enum Package {
    Wireshark,
}

/// An error while installing a package on a remote host.
#[derive(Debug)]
pub enum PackageError {
    /// The package is not available for the host's operating system.
    NotAvailable(Package),
    /// The host's operating system does not support installing packages
    /// this way.
    UnsupportedOs(Package),
}

/// The name of a package in the package managers of the known systems.
pub open spec fn package_name(p: Package) -> Seq<char> {
    match p {
        Package::Wireshark => "wireshark"@,
    }
}

impl Package {
    /// The name of this package in the given OS's package manager, or none
    /// when the OS is not one of the known systems.
    pub fn to_os_package(&self, os: &HostOs) -> (r: Option<&'static str>)
        ensures
            r is Some <==> !(os@ is Other),
            r is Some ==> r->0@ == package_name(*self),
    {
        if os.is_other() {
            return None;
        }
        let pkg = match self {
            Package::Wireshark => "wireshark",
        };
        Some(pkg)
    }
}

/// The command line that installs a package on a system served by the apt
/// package manager.
pub open spec fn apt_install_argv(p: Package) -> Seq<Seq<char>> {
    seq!["sudo"@, "apt-get"@, "--quiet"@, "install"@, package_name(p), "-y"@]
}

/// Builds the command line that installs `pkg` on a host running `os`, or
/// says why no installation can be attempted there: an unrecognized system
/// has no package for it, and the declarative system does not take imperative
/// installs.
pub fn install_command(pkg: Package, os: &HostOs) -> (r: Result<Vec<String>, PackageError>)
    ensures
        r is Ok <==> os@ is Ubuntu,
        r is Ok ==> str_views(r->Ok_0@) == apt_install_argv(pkg),
        os@ is Other ==> r == Err::<Vec<String>, PackageError>(PackageError::NotAvailable(pkg)),
        os@ is NixOS ==> r == Err::<Vec<String>, PackageError>(PackageError::UnsupportedOs(pkg)),
{
    let name = match pkg.to_os_package(os) {
        Some(name) => name,
        None => {
            return Err(PackageError::NotAvailable(pkg));
        },
    };
    match os {
        HostOs::Ubuntu => {
            let mut args: Vec<String> = Vec::new();
            args.push("sudo".to_owned());
            args.push("apt-get".to_owned());
            args.push("--quiet".to_owned());
            args.push("install".to_owned());
            args.push(name.to_owned());
            args.push("-y".to_owned());
            proof {
                assert(str_views(args@) =~= apt_install_argv(pkg));
            }
            Ok(args)
        },
        HostOs::NixOS => Err(PackageError::UnsupportedOs(pkg)),
        HostOs::Other(_) => Err(PackageError::NotAvailable(pkg)),
    }
}

} // verus!
