use controller::capture::finish_capture;
use controller::capture::Capture;
use controller::capture::CaptureError;
use controller::capture::StopCondition;
use controller::hosts::ExtraData;
use controller::hosts::Host;
use controller::hosts::HostOs;
use controller::hosts::Hosts;
use controller::monitor::Monitor;
use controller::monitor::MonitorConfig;
use controller::monitor::MonitorError;
use controller::monitor::MonitorPhase;

fn host(id: &str, driver: Option<&str>) -> Host {
    Host {
        id: id.to_string(),
        os_info: HostOs::Ubuntu,
        extra_data: ExtraData {
            wifi_driver: driver.map(|s| s.to_string()),
            interface: None,
            monitor_excluded: false,
        },
    }
}

fn registry() -> Hosts {
    Hosts::new(vec![
        host("ap", None),
        host("mon1", Some("iwlwifi")),
        host("sta1", None),
    ])
    .unwrap()
}

fn config(set_aids: bool, output_path: Option<&str>) -> MonitorConfig {
    MonitorConfig {
        ssid: "OpenWrt".to_string(),
        bssid: "10:7c:61:df:7a:d2".to_string(),
        monitors: vec!["mon1".to_string()],
        targets: vec!["sta1".to_string()],
        duration_secs: 5,
        output_path: output_path.map(|s| s.to_string()),
        frequency: 5580,
        bandwidth: 80,
        set_aids,
    }
}

#[test]
fn start_resolves_hosts_and_picks_the_phase() {
    let hosts = registry();
    let monitor = config(false, None).start(&hosts).unwrap();
    assert_eq!(monitor.phase, MonitorPhase::Capturing);
    assert_eq!(monitor.monitor_hosts.len(), 1);
    assert_eq!(monitor.monitor_hosts[0].id, "mon1");
    assert_eq!(monitor.target_hosts[0].id, "sta1");

    let monitor = config(true, None).start(&hosts).unwrap();
    assert_eq!(monitor.phase, MonitorPhase::Discovering);
}

#[test]
fn start_fails_before_any_side_effect_on_unknown_ids() {
    let hosts = registry();
    let mut c = config(false, None);
    c.monitors = vec!["ghost".to_string()];
    match c.start(&hosts).unwrap_err() {
        MonitorError::UnknownHost(id) => assert_eq!(id, "ghost"),
        other => panic!("expected an unknown host, got {other:?}"),
    }
    let mut c = config(false, None);
    c.targets = vec!["sta1".to_string(), "nowhere".to_string()];
    match c.start(&hosts).unwrap_err() {
        MonitorError::UnknownHost(id) => assert_eq!(id, "nowhere"),
        other => panic!("expected an unknown host, got {other:?}"),
    }
}

#[test]
fn discovery_needs_a_monitor_host() {
    let hosts = registry();
    let mut c = config(true, None);
    c.monitors = Vec::new();
    assert!(matches!(
        c.start(&hosts).unwrap_err(),
        MonitorError::NoMonitorHost
    ));
    // Without discovery an empty monitor list is allowed.
    let mut c = config(false, None);
    c.monitors = Vec::new();
    assert!(c.start(&hosts).is_ok());
}

#[test]
fn discovery_command_filters_at_capture_time() {
    let hosts = registry();
    let monitor = config(true, None).start(&hosts).unwrap();
    assert_eq!(monitor.discovery_host().id, "mon1");
    let argv = monitor.discovery_command();
    assert_eq!(
        argv,
        vec![
            "sudo",
            "tshark",
            "-T",
            "fields",
            "--interface",
            "mon0",
            "-e",
            "wlan.fixed.aid",
            "-Y",
            "wlan.fc.type_subtype == 0x0001 && wlan.bssid == \"10:7c:61:df:7a:d2\"",
        ]
    );
}

#[test]
fn join_commands_connect_every_target() {
    let hosts = registry();
    let monitor = config(true, None).start(&hosts).unwrap();
    let joins = monitor.join_commands();
    assert_eq!(joins.len(), 1);
    assert_eq!(joins[0].0, "sta1");
    assert_eq!(
        joins[0].1,
        vec!["sudo", "nmcli", "device", "wifi", "connect", "OpenWrt"]
    );
}

#[test]
fn process_discovery_assigns_and_moves_to_capturing() {
    let hosts = registry();
    let mut monitor = config(true, None).start(&hosts).unwrap();
    let assignments = monitor.process_discovery("wlan.fixed.aid\n0x0007\n").unwrap();
    assert_eq!(monitor.phase, MonitorPhase::Capturing);
    assert_eq!(assignments.len(), 1);
    assert_eq!(assignments[0].host_id, "mon1");
    assert_eq!(assignments[0].aid, 7);
}

#[test]
fn process_discovery_aborts_on_a_shortfall() {
    let hosts = registry();
    let mut monitor = config(true, None).start(&hosts).unwrap();
    // A header but no identifier lines: fewer identifiers than monitors.
    let err = monitor.process_discovery("wlan.fixed.aid\n").unwrap_err();
    assert_eq!(monitor.phase, MonitorPhase::Aborted);
    let _ = err;
}

#[test]
fn capture_configs_name_one_file_per_host() {
    let hosts = registry();
    let monitor = config(false, Some("/tmp/run1")).start(&hosts).unwrap();
    let configs = monitor.capture_configs();
    assert_eq!(configs.len(), 1);
    assert_eq!(configs[0].0, "mon1");
    assert_eq!(configs[0].1.interface, "mon0");
    assert_eq!(configs[0].1.stop_condition, StopCondition::Duration(5));
    assert_eq!(configs[0].1.output_path.as_deref(), Some("/tmp/run1/mon1.pcapng"));

    let monitor = config(false, None).start(&hosts).unwrap();
    let configs = monitor.capture_configs();
    assert!(configs[0].1.output_path.is_none());
}

fn capturing_monitor(hosts: &Hosts) -> Monitor {
    config(false, None).start(hosts).unwrap()
}

#[test]
fn wait_is_all_or_nothing() {
    let hosts = registry();
    let mut monitor = capturing_monitor(&hosts);
    let results: Vec<Result<(String, Capture), CaptureError>> = vec![
        Ok(("m1".to_string(), Capture::Buffer(vec![1]))),
        Err(CaptureError::RemoteFailed(Some(1))),
        Ok(("m3".to_string(), Capture::Buffer(vec![3]))),
    ];
    match monitor.wait(results).unwrap_err() {
        CaptureError::RemoteFailed(code) => assert_eq!(code, Some(1)),
        other => panic!("expected the failing capture's error, got {other:?}"),
    }
    assert_eq!(monitor.phase, MonitorPhase::Aborted);
}

#[test]
fn wait_returns_every_capture_on_success() {
    let hosts = registry();
    let mut monitor = capturing_monitor(&hosts);
    let results: Vec<Result<(String, Capture), CaptureError>> = vec![
        Ok(("m1".to_string(), Capture::Buffer(vec![1]))),
        Ok(("m2".to_string(), Capture::Buffer(vec![2]))),
    ];
    let out = monitor.wait(results).unwrap();
    assert_eq!(monitor.phase, MonitorPhase::Completed);
    assert_eq!(out.len(), 2);
    assert_eq!(out[0].0, "m1");
    assert_eq!(out[1].0, "m2");
}

#[test]
fn abort_discards_the_run() {
    let hosts = registry();
    let mut monitor = capturing_monitor(&hosts);
    monitor.abort();
    assert_eq!(monitor.phase, MonitorPhase::Aborted);
}

#[test]
fn monitoring_run_end_to_end() {
    // Registry of three hosts; one monitor, one target, no discovery,
    // buffers in memory. The bytes handed back by the mocked remote capture
    // are exactly what the final mapping holds.
    let hosts = registry();
    let mut c = config(false, None);
    c.duration_secs = 5;
    let mut monitor = c.start(&hosts).unwrap();
    assert_eq!(monitor.phase, MonitorPhase::Capturing);

    let configs = monitor.capture_configs();
    assert_eq!(configs.len(), 1);
    let (host_id, capture_config) = &configs[0];

    // The mocked remote process writes these bytes to its standard output
    // and exits successfully.
    let remote_stdout: Vec<u8> = vec![0x0a, 0x0d, 0x0d, 0x0a, 1, 2, 3];
    let plan = capture_config.plan(false).unwrap();
    let filled = match plan.sink {
        Capture::Buffer(mut bytes) => {
            bytes.extend_from_slice(&remote_stdout);
            Capture::Buffer(bytes)
        },
        other => panic!("expected a buffer sink, got {other:?}"),
    };
    let capture = finish_capture(filled, Some(0)).unwrap();

    let results = vec![Ok::<_, CaptureError>((host_id.clone(), capture))];
    let out = monitor.wait(results).unwrap();
    assert_eq!(monitor.phase, MonitorPhase::Completed);
    assert_eq!(out.len(), 1);
    assert_eq!(out[0].0, "mon1");
    match &out[0].1 {
        Capture::Buffer(bytes) => assert_eq!(bytes, &remote_stdout),
        other => panic!("expected a buffer capture, got {other:?}"),
    }
}
