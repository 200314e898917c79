use controller::hosts::ExtraData;
use controller::hosts::Host;
use controller::hosts::HostConfig;
use controller::hosts::HostOs;
use controller::hosts::Hosts;
use controller::hosts::HostsConfig;
use controller::hosts::HostsError;

fn extra(driver: Option<&str>, interface: Option<&str>) -> ExtraData {
    ExtraData {
        wifi_driver: driver.map(|s| s.to_string()),
        interface: interface.map(|s| s.to_string()),
        monitor_excluded: false,
    }
}

fn host(id: &str) -> Host {
    Host {
        id: id.to_string(),
        os_info: HostOs::Ubuntu,
        extra_data: extra(None, None),
    }
}

fn host_config(id: &str) -> HostConfig {
    HostConfig {
        id: id.to_string(),
        url: format!("user@{id}"),
        relays: Vec::new(),
        extra_data: extra(None, None),
    }
}

fn registry(ids: &[&str]) -> Hosts {
    let hosts = ids.iter().map(|id| host(id)).collect();
    Hosts::new(hosts).expect("distinct ids must build a registry")
}

#[test]
fn validate_accepts_distinct_ids() {
    let config = HostsConfig {
        hosts: vec![host_config("ap"), host_config("mon1"), host_config("sta1")],
    };
    assert!(config.validate().is_ok());
}

#[test]
fn validate_rejects_duplicate_id() {
    let config = HostsConfig {
        hosts: vec![host_config("ap"), host_config("mon1"), host_config("ap")],
    };
    let err = config.validate().unwrap_err();
    let HostsError::DuplicateId(id) = err;
    assert_eq!(id, "ap");
}

#[test]
fn registry_construction_rejects_duplicate_id() {
    let err = Hosts::new(vec![host("a"), host("b"), host("b")]).unwrap_err();
    let HostsError::DuplicateId(id) = err;
    assert_eq!(id, "b");
}

#[test]
fn get_finds_only_known_ids() {
    let hosts = registry(&["ap", "mon1"]);
    assert_eq!(hosts.get("ap").unwrap().id, "ap");
    assert_eq!(hosts.get("mon1").unwrap().id, "mon1");
    assert!(hosts.get("sta1").is_none());
}

#[test]
fn get_many_resolves_in_order() {
    let hosts = registry(&["a", "b", "c"]);
    let ids = vec!["c".to_string(), "a".to_string()];
    let resolved = hosts.get_many(&ids).unwrap();
    let names: Vec<&str> = resolved.iter().map(|h| h.id.as_str()).collect();
    assert_eq!(names, vec!["c", "a"]);
}

#[test]
fn get_many_fails_fast_on_first_missing_id() {
    let hosts = registry(&["a", "b"]);
    let ids = vec!["a".to_string(), "missing".to_string(), "b".to_string()];
    let err = hosts.get_many(&ids).unwrap_err();
    assert_eq!(err, "missing");
}

#[test]
fn all_except_ignores_unknown_ids() {
    let hosts = registry(&["a", "b", "c"]);
    let excluded = vec!["b".to_string(), "ghost".to_string()];
    let kept = hosts.all_except(&excluded);
    let names: Vec<&str> = kept.iter().map(|h| h.id.as_str()).collect();
    assert_eq!(names, vec!["a", "c"]);
}

#[test]
fn all_except_with_empty_exclusion_returns_everything() {
    let hosts = registry(&["a", "b"]);
    let kept = hosts.all_except(&Vec::new());
    assert_eq!(kept.len(), 2);
}

#[test]
fn iter_walks_all_hosts() {
    let hosts = registry(&["x", "y"]);
    let names: Vec<&str> = hosts.iter().iter().map(|h| h.id.as_str()).collect();
    assert_eq!(names, vec!["x", "y"]);
}

#[test]
fn os_detection_reads_distrib_id() {
    let text = "NAME=Foo\nDISTRIB_ID=Ubuntu\nVERSION=1\n";
    assert!(matches!(HostOs::detect(text), HostOs::Ubuntu));
    let text = "distrib_id=nixos\n";
    assert!(matches!(HostOs::detect(text), HostOs::NixOS));
    let text = "DISTRIB_ID=gentoo\n";
    match HostOs::detect(text) {
        HostOs::Other(name) => assert_eq!(name, "gentoo"),
        other => panic!("expected an unrecognized system, got {other:?}"),
    }
    let text = "no directives here\n";
    match HostOs::detect(text) {
        HostOs::Other(name) => assert_eq!(name, ""),
        other => panic!("expected an anonymous system, got {other:?}"),
    }
}

#[test]
fn os_is_other_only_for_unrecognized_systems() {
    assert!(!HostOs::Ubuntu.is_other());
    assert!(!HostOs::NixOS.is_other());
    assert!(HostOs::Other("x".to_string()).is_other());
}

#[test]
fn os_display_name_carries_raw_identity() {
    assert_eq!(HostOs::Ubuntu.display_name(), "Ubuntu");
    assert_eq!(HostOs::NixOS.display_name(), "NixOS");
    assert_eq!(HostOs::Other(String::new()).display_name(), "Other OS");
    assert_eq!(HostOs::Other("gentoo".to_string()).display_name(), "Other OS (gentoo)");
}

#[test]
fn from_distrib_id_is_case_sensitive() {
    assert!(matches!(HostOs::from_distrib_id("nixos"), HostOs::NixOS));
    assert!(matches!(HostOs::from_distrib_id("Ubuntu"), HostOs::Ubuntu));
    assert!(matches!(HostOs::from_distrib_id("ubuntu"), HostOs::Other(_)));
}
