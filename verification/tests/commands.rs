use controller::connection::associate_command;
use controller::connection::associate_result;
use controller::connection::ConnectionError;
use controller::hosts::HostOs;
use controller::iperf::iperf_client_commands;
use controller::iperf::iperf_server_commands;
use controller::iperf::mcs_command;
use controller::iperf::server_ip_command;
use controller::iperf::server_ip_from_output;
use controller::iperf::Direction;
use controller::iperf::IperfArgs;
use controller::iwlwifi::set_aid_command;
use controller::scripts::Script;
use controller::iwlwifi::set_aid_result;
use controller::package::install_command;
use controller::package::Package;
use controller::package::PackageError;

#[test]
fn associate_command_appends_the_credential() {
    assert_eq!(
        associate_command("OpenWrt", None),
        vec!["sudo", "nmcli", "device", "wifi", "connect", "OpenWrt"]
    );
    assert_eq!(
        associate_command("OpenWrt", Some("pw")),
        vec!["sudo", "nmcli", "device", "wifi", "connect", "OpenWrt", "password", "pw"]
    );
}

#[test]
fn associate_result_goes_by_the_exit_status_alone() {
    assert!(associate_result(Some(0)).is_ok());
    match associate_result(Some(4)).unwrap_err() {
        ConnectionError::JoinFailed(code) => assert_eq!(code, Some(4)),
    }
    assert!(associate_result(None).is_err());
}

#[test]
fn set_aid_command_writes_the_identifier_in_hexadecimal() {
    let argv = set_aid_command(26, "10:7c:61:df:7a:d2");
    assert_eq!(argv[0], "sudo");
    assert_eq!(argv[1], "sh");
    assert_eq!(argv[2], "-c");
    assert_eq!(
        argv[3],
        "echo 1a 10:7c:61:df:7a:d2 > /sys/kernel/debug/iwlwifi/*/iwlmvm/he_sniffer_params"
    );
    let argv = set_aid_command(1, "aa:bb");
    assert_eq!(
        argv[3],
        "echo 1 aa:bb > /sys/kernel/debug/iwlwifi/*/iwlmvm/he_sniffer_params"
    );
}

#[test]
fn set_aid_result_goes_by_the_exit_status_alone() {
    assert!(set_aid_result(Some(0)).is_ok());
    assert!(set_aid_result(Some(1)).is_err());
    assert!(set_aid_result(None).is_err());
}

#[test]
fn package_names_exist_only_on_known_systems() {
    let pkg = Package::Wireshark;
    assert_eq!(pkg.to_os_package(&HostOs::Ubuntu), Some("wireshark"));
    assert_eq!(pkg.to_os_package(&HostOs::NixOS), Some("wireshark"));
    assert_eq!(pkg.to_os_package(&HostOs::Other("x".to_string())), None);
}

#[test]
fn install_command_only_serves_the_apt_system() {
    let args = install_command(Package::Wireshark, &HostOs::Ubuntu).unwrap();
    assert_eq!(
        args,
        vec!["sudo", "apt-get", "--quiet", "install", "wireshark", "-y"]
    );
    assert!(matches!(
        install_command(Package::Wireshark, &HostOs::NixOS).unwrap_err(),
        PackageError::UnsupportedOs(_)
    ));
    assert!(matches!(
        install_command(Package::Wireshark, &HostOs::Other("x".to_string())).unwrap_err(),
        PackageError::NotAvailable(_)
    ));
}

#[test]
fn server_ip_command_reads_the_interface_address() {
    assert_eq!(
        server_ip_command("wlan0"),
        "ip -4 a show wlan0 | awk '/inet/ {print $2}' | cut -d/ -f1"
    );
}

#[test]
fn server_ip_output_is_trimmed_and_must_be_non_empty() {
    assert_eq!(server_ip_from_output("  192.168.1.2\n").unwrap(), "192.168.1.2");
    assert!(server_ip_from_output("").is_err());
    assert!(server_ip_from_output(" \n\t").is_err());
}

#[test]
fn mcs_command_clears_the_bitrate_on_auto() {
    assert_eq!(mcs_command("he-mcs-5 1:11"), "iw dev phy1-ap0 set bitrates he-mcs-5 1:11");
    assert_eq!(mcs_command("auto"), "iw dev phy1-ap0 set bitrates ");
    assert_eq!(mcs_command("AUTO"), "iw dev phy1-ap0 set bitrates ");
}

#[test]
fn iperf_servers_get_consecutive_ports() {
    let cmds = iperf_server_commands("wlan0", 5000, 2);
    assert_eq!(
        cmds,
        vec![
            "iperf3 -s --bind-dev wlan0 -p 5001 -1",
            "iperf3 -s --bind-dev wlan0 -p 5002 -1",
        ]
    );
}

#[test]
fn iperf_clients_share_the_throughput_equally() {
    let binds = vec![Some("eth0".to_string()), None];
    let cmds = iperf_client_commands("192.168.1.2", 5000, &binds, 10_000_000, true, Direction::Downlink);
    assert_eq!(
        cmds,
        vec![
            "iperf3 -c 192.168.1.2 -p 5001 --bind-dev eth0 -b 5000000 -u -R",
            "iperf3 -c 192.168.1.2 -p 5002  -b 5000000 -u -R",
        ]
    );
}

#[test]
fn iperf_monitor_config_adds_capture_leeway() {
    let args = IperfArgs {
        server: "ap".to_string(),
        clients: vec!["sta1".to_string()],
        monitors: vec!["mon1".to_string()],
        direction: Direction::Downlink,
        duration: 10,
        udp: Some(true),
        total_throughput: 0,
        mcs: None,
        frequency: 5580,
        bandwidth: 80,
        ssid: "OpenWrt".to_string(),
        bssid: "10:7c:61:df:7a:d2".to_string(),
    };
    let config = args.monitor_config(vec!["sta1".to_string()], "/tmp/run");
    assert_eq!(config.duration_secs, 14);
    assert_eq!(config.monitors, vec!["mon1"]);
    assert_eq!(config.targets, vec!["sta1"]);
    assert_eq!(config.output_path.as_deref(), Some("/tmp/run"));
    assert!(config.set_aids);
    let script = Script::Iperf(args);
    let Script::Iperf(inner) = script;
    assert_eq!(inner.duration, 10);
}

#[test]
fn iperf_client_direction_and_udp_flags() {
    let binds = vec![None];
    let cmds = iperf_client_commands("h", 5000, &binds, 0, false, Direction::Uplink);
    assert_eq!(cmds, vec!["iperf3 -c h -p 5001  -b 0  "]);
    let cmds = iperf_client_commands("h", 5000, &binds, 0, false, Direction::Bidir);
    assert_eq!(cmds, vec!["iperf3 -c h -p 5001  -b 0  --bidir"]);
}
