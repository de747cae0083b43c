use ipscan::{OutputFormat, ProfileType, ScanOptions, ScanTiming};
use pnet::datalink::MacAddr;
use pnet::packet::arp::{ArpHardwareTypes, ArpOperations};
use pnet::packet::ethernet::EtherTypes;

fn options(output: OutputFormat, vlan_id: Option<u16>, packet_help: bool) -> ScanOptions {
    ScanOptions {
        interface_name: Some("eth0".to_owned()),
        interface_index: None,
        network_range: Some(vec!["192.0.2.0/24".parse().unwrap()]),
        timeout_ms: 2000,
        resolve_hostname: true,
        source_ipv4: Some([192, 0, 2, 10]),
        source_mac: Some(MacAddr::new(2, 0, 0, 0, 0, 1)),
        destination_mac: Some(MacAddr::broadcast()),
        vlan_id,
        retry_count: 2,
        scan_timing: ScanTiming::Interval(10),
        randomize_targets: false,
        output,
        oui_file: "/usr/share/ieee-data/oui.csv".to_owned(),
        hw_type: Some(ArpHardwareTypes::Ethernet),
        hw_addr: Some(6),
        proto_type: Some(EtherTypes::Ipv4),
        proto_addr: Some(4),
        arp_operation: Some(ArpOperations::Request),
        packet_help,
    }
}

#[test]
fn plain_output_is_recognised() {
    assert!(options(OutputFormat::Plain, None, false).is_plain_output());
    assert!(!options(OutputFormat::Json, None, false).is_plain_output());
    assert!(!options(OutputFormat::Yaml, None, false).is_plain_output());
    assert!(!options(OutputFormat::Csv, None, false).is_plain_output());
}

#[test]
fn vlan_framing_follows_the_vlan_id() {
    assert!(options(OutputFormat::Plain, Some(0), false).has_vlan());
    assert!(options(OutputFormat::Plain, Some(4094), false).has_vlan());
    assert!(!options(OutputFormat::Plain, None, false).has_vlan());
}

#[test]
fn protocol_help_follows_the_flag() {
    assert!(options(OutputFormat::Csv, None, true).request_protocol_print());
    assert!(!options(OutputFormat::Csv, None, false).request_protocol_print());
}

#[test]
fn timing_and_profile_values() {
    let timing = ScanTiming::Bandwidth(1_000_000);
    assert!(matches!(timing, ScanTiming::Bandwidth(1_000_000)));
    let profiles = [ProfileType::Default, ProfileType::Fast, ProfileType::Stealth, ProfileType::Chaos];
    assert_eq!(profiles.len(), 4);
}
