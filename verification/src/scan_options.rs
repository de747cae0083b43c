//! Scan configuration shared by the standalone binary and other front ends.

use vstd::prelude::*;

verus! {

/// The IP network type of the `ipnetwork` crate; scan options carry it as is.
#[verifier::external_type_specification]
#[verifier::external_body]
pub struct ExIpNetwork(ipnetwork::IpNetwork);

/// The hardware address type of `pnet`; scan options carry it as is.
#[verifier::external_type_specification]
#[verifier::external_body]
pub struct ExMacAddr(pnet::datalink::MacAddr);

/// The ARP hardware type of `pnet`; scan options carry it as is.
#[verifier::external_type_specification]
#[verifier::external_body]
pub struct ExArpHardwareType(pnet::packet::arp::ArpHardwareType);

/// The ARP operation of `pnet`; scan options carry it as is.
#[verifier::external_type_specification]
#[verifier::external_body]
pub struct ExArpOperation(pnet::packet::arp::ArpOperation);

/// The Ethernet protocol type of `pnet`; scan options carry it as is.
#[verifier::external_type_specification]
#[verifier::external_body]
pub struct ExEtherType(pnet::packet::ethernet::EtherType);

/// Output representation selected by the standalone CLI.
#[derive(Debug)]
pub enum OutputFormat {
    /// Human-oriented terminal table output.
    Plain,
    /// Structured JSON output used by the Nushell adapter.
    Json,
    /// YAML serialization for files and shell pipelines.
    Yaml,
    /// CSV serialization for tabular tooling.
    Csv,
}

/// Named timing/profile presets accepted by `ipscan`.
#[derive(Debug)]
pub enum ProfileType {
    /// Balanced default timings.
    Default,
    /// Faster requests with a greater chance of missed replies.
    Fast,
    /// Slower requests intended to reduce network impact.
    Stealth,
    /// Randomized timing and scan parameters.
    Chaos,
}

/// Either an inter-packet interval or a target bandwidth.
#[derive(Debug)]
pub enum ScanTiming {
    /// Delay between successive requests, in milliseconds.
    Interval(u64),
    /// Approximate request bandwidth, in bits per second.
    Bandwidth(u64),
}

/// Immutable options used throughout one scan invocation.
pub struct ScanOptions {
    /// Interface name selected by the caller.
    pub interface_name: Option<String>,
    /// Interface index selected by the caller.
    pub interface_index: Option<u32>,
    /// Explicit IPv4 ranges to scan.
    pub network_range: Option<Vec<ipnetwork::IpNetwork>>,
    /// Minimum response collection time, in milliseconds.
    pub timeout_ms: u64,
    /// Whether reverse-DNS lookup is enabled.
    pub resolve_hostname: bool,
    /// Optional source IPv4 address for crafted ARP requests, as its four
    /// octets in network order.
    pub source_ipv4: Option<[u8; 4]>,
    /// Optional source hardware address for crafted Ethernet frames.
    pub source_mac: Option<pnet::datalink::MacAddr>,
    /// Optional destination hardware address for crafted frames.
    pub destination_mac: Option<pnet::datalink::MacAddr>,
    /// Optional 802.1Q VLAN identifier.
    pub vlan_id: Option<u16>,
    /// Number of request passes over the target set.
    pub retry_count: usize,
    /// Request pacing mode.
    pub scan_timing: ScanTiming,
    /// Whether target addresses should be randomized.
    pub randomize_targets: bool,
    /// Selected output representation.
    pub output: OutputFormat,
    /// Path to the optional IEEE OUI database.
    pub oui_file: String,
    /// Optional ARP hardware type override.
    pub hw_type: Option<pnet::packet::arp::ArpHardwareType>,
    /// Optional ARP hardware-address length override.
    pub hw_addr: Option<u8>,
    /// Optional ARP protocol type override.
    pub proto_type: Option<pnet::packet::ethernet::EtherType>,
    /// Optional ARP protocol-address length override.
    pub proto_addr: Option<u8>,
    /// Optional ARP operation override.
    pub arp_operation: Option<pnet::packet::arp::ArpOperation>,
    /// Whether the packet-layout help should be printed.
    pub packet_help: bool,
}

impl ScanOptions {
    /// Return `true` when the selected output is the terminal table.
    pub fn is_plain_output(&self) -> (r: bool)
        ensures
            r == (self.output is Plain),
    {
        match &self.output {
            OutputFormat::Plain => true,
            _ => false,
        }
    }

    /// Return `true` when VLAN framing changes the packet size.
    pub fn has_vlan(&self) -> (r: bool)
        ensures
            r == (self.vlan_id is Some),
    {
        self.vlan_id.is_some()
    }

    /// Return `true` when the packet-layout help path was requested.
    pub fn request_protocol_print(&self) -> (r: bool)
        ensures
            r == self.packet_help,
    {
        self.packet_help
    }
}

} // verus!
