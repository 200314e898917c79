use controller::discovery::assign_aids;
use controller::discovery::extract_aids;
use controller::discovery::DiscoveryError;
use controller::hosts::ExtraData;
use controller::hosts::Host;
use controller::hosts::HostOs;

fn monitor_host(id: &str, driver: Option<&str>) -> Host {
    Host {
        id: id.to_string(),
        os_info: HostOs::Ubuntu,
        extra_data: ExtraData {
            wifi_driver: driver.map(|s| s.to_string()),
            interface: None,
            monitor_excluded: false,
        },
    }
}

#[test]
fn test_extract_aids() {
    let output = "wlan.fixed.aid\n0x0001\n0x000c\n2a\n";
    let aids = extract_aids(output).unwrap();
    assert_eq!(aids, vec![1, 12, 42]);
}

#[test]
fn extract_aids_skips_only_the_header() {
    let output = "header\n0x0003\n";
    assert_eq!(extract_aids(output).unwrap(), vec![3]);
}

#[test]
fn extract_aids_of_empty_output_is_empty() {
    assert_eq!(extract_aids("").unwrap(), Vec::<u16>::new());
    assert_eq!(extract_aids("just a header\n").unwrap(), Vec::<u16>::new());
}

#[test]
fn extract_aids_reports_first_bad_line() {
    let output = "header\n0x0001\nnot-hex\n0x0002\n";
    let err = extract_aids(output).unwrap_err();
    match err {
        DiscoveryError::BadAidLine(line) => assert_eq!(line, "not-hex"),
        other => panic!("expected a bad line, got {other:?}"),
    }
}

#[test]
fn extract_aids_rejects_values_beyond_sixteen_bits() {
    let output = "header\n10000\n";
    assert!(matches!(
        extract_aids(output),
        Err(DiscoveryError::BadAidLine(_))
    ));
    let output = "header\nffff\n";
    assert_eq!(extract_aids(output).unwrap(), vec![0xffff]);
}

#[test]
fn extract_aids_handles_carriage_returns() {
    let output = "header\r\n0x0005\r\n";
    assert_eq!(extract_aids(output).unwrap(), vec![5]);
}

#[test]
fn assign_aids_pairs_by_position() {
    let aids = vec![7u16, 9u16, 11u16];
    let monitors = vec![
        monitor_host("m1", Some("iwlwifi")),
        monitor_host("m2", Some("iwlwifi")),
    ];
    let assigned = assign_aids(&aids, &monitors).unwrap();
    assert_eq!(assigned.len(), 2);
    assert_eq!(assigned[0].host_id, "m1");
    assert_eq!(assigned[0].aid, 7);
    assert_eq!(assigned[1].host_id, "m2");
    assert_eq!(assigned[1].aid, 9);
}

#[test]
fn assign_aids_refuses_a_shortfall() {
    let aids = vec![7u16];
    let monitors = vec![
        monitor_host("m1", Some("iwlwifi")),
        monitor_host("m2", Some("iwlwifi")),
    ];
    match assign_aids(&aids, &monitors).unwrap_err() {
        DiscoveryError::AidShortfall { expected, got } => {
            assert_eq!(expected, 2);
            assert_eq!(got, 1);
        },
        other => panic!("expected a shortfall, got {other:?}"),
    }
}

#[test]
fn assign_aids_names_the_unsupported_driver_and_host() {
    let aids = vec![1u16, 2u16];
    let monitors = vec![
        monitor_host("m1", Some("iwlwifi")),
        monitor_host("m2", Some("ath9k")),
    ];
    match assign_aids(&aids, &monitors).unwrap_err() {
        DiscoveryError::UnsupportedDriver { host, driver } => {
            assert_eq!(host, "m2");
            assert_eq!(driver.as_deref(), Some("ath9k"));
        },
        other => panic!("expected an unsupported driver, got {other:?}"),
    }
}

#[test]
fn assign_aids_reports_a_missing_driver() {
    let aids = vec![1u16];
    let monitors = vec![monitor_host("m1", None)];
    match assign_aids(&aids, &monitors).unwrap_err() {
        DiscoveryError::UnsupportedDriver { host, driver } => {
            assert_eq!(host, "m1");
            assert!(driver.is_none());
        },
        other => panic!("expected an unsupported driver, got {other:?}"),
    }
}
