use crate::error::PacketSenderError;
use vstd::prelude::*;

verus! {

/// A span of time in nanoseconds.
pub type Nanos = u64;

/// Nanoseconds in one second.
pub const NANOS_PER_SEC: u64 = 1_000_000_000;

/// EtherType of IPv4.
pub const ETHERTYPE_IPV4: u16 = 0x0800;

/// IP protocol number of TCP.
pub const IP_PROTOCOL_TCP: u8 = 6;

/// The SYN bit of the TCP flags byte.
pub const TCP_FLAG_SYN: u8 = 0b0000_0010;

/// Defaults applied by [`SendPacketSettingsBuilder::build`] to the fields left unset.
pub const DEFAULT_IPV4_VERSION: u8 = 4;
pub const DEFAULT_IPV4_HEADER_LENGTH: u8 = 5;
pub const DEFAULT_IPV4_DSCP: u8 = 0;
pub const DEFAULT_IPV4_ECN: u8 = 0;
pub const DEFAULT_IPV4_IDENTIFICATION: u16 = 0;
pub const DEFAULT_IPV4_FLAGS: u8 = 0;
pub const DEFAULT_TCP_FLAGS: u8 = TCP_FLAG_SYN;
pub const DEFAULT_SRC_PORT: u16 = 10000;
pub const DEFAULT_DST_PORT: u16 = 20000;
pub const DEFAULT_TIMEOUT: Nanos = 10 * NANOS_PER_SEC;
pub const DEFAULT_PAYLOAD_LEN: usize = 1000;
pub const DEFAULT_PACKET_COUNT: usize = 1;
pub const DEFAULT_INTERVAL: Nanos = NANOS_PER_SEC;

/// Everything one run needs: the header fields of the frame, its payload,
/// how many frames to send and how to pace them. Built once, then only read.
#[derive(Clone, Debug)]
pub struct SendPacketSettings {
    pub ethernet_src_mac: [u8; 6],
    pub ethernet_dst_mac: [u8; 6],
    pub ipv4_src_ip: [u8; 4],
    pub ipv4_dst_ip: [u8; 4],
    pub ipv4_version: u8,
    pub ipv4_header_length: u8,
    pub ipv4_dscp: u8,
    pub ipv4_ecn: u8,
    pub ipv4_identification: u16,
    pub ipv4_next_level_protocol: u8,
    pub ipv4_flags: u8,
    pub tcp_flags: u8,
    pub src_port: u16,
    pub dst_port: u16,
    /// Per-send timeout handed to the device layer.
    pub timeout: Nanos,
    pub payload: Vec<u8>,
    pub packet_count: usize,
    /// Pause after each device write.
    pub interval: Nanos,
}

/// The default payload: that many zero bytes.
pub open spec fn default_payload() -> Seq<u8> {
    Seq::new(DEFAULT_PAYLOAD_LEN as nat, |i: int| 0u8)
}

/// Per-field overrides; every field left unset takes its default in `build`.
#[derive(Clone, Debug)]
pub struct SendPacketSettingsBuilder {
    pub ethernet_src_mac: Option<[u8; 6]>,
    pub ethernet_dst_mac: Option<[u8; 6]>,
    pub ipv4_src_ip: Option<[u8; 4]>,
    pub ipv4_dst_ip: Option<[u8; 4]>,
    pub ipv4_version: Option<u8>,
    pub ipv4_header_length: Option<u8>,
    pub ipv4_dscp: Option<u8>,
    pub ipv4_ecn: Option<u8>,
    pub ipv4_identification: Option<u16>,
    pub ipv4_next_level_protocol: Option<u8>,
    pub ipv4_flags: Option<u8>,
    pub tcp_flags: Option<u8>,
    pub src_port: Option<u16>,
    pub dst_port: Option<u16>,
    pub timeout: Option<Nanos>,
    pub payload: Option<Vec<u8>>,
    pub packet_count: Option<usize>,
    pub interval: Option<Nanos>,
}

/// The octets of an optional address override; all zero when unset.
pub open spec fn octets_or_zero<const N: usize>(o: Option<[u8; N]>) -> Seq<u8> {
    match o {
        Some(a) => a@,
        None => Seq::new(N as nat, |i: int| 0u8),
    }
}

/// The payload that `build` resolves from an optional override.
pub open spec fn resolved_payload(p: Option<Vec<u8>>) -> Seq<u8> {
    match p {
        Some(v) => v@,
        None => default_payload(),
    }
}

/// `r` holds the builder's overrides and the defaults for the rest.
pub open spec fn resolves_to(b: SendPacketSettingsBuilder, r: SendPacketSettings) -> bool {
    &&& r.ethernet_src_mac@ == octets_or_zero(b.ethernet_src_mac)
    &&& r.ethernet_dst_mac@ == octets_or_zero(b.ethernet_dst_mac)
    &&& r.ipv4_src_ip@ == octets_or_zero(b.ipv4_src_ip)
    &&& r.ipv4_dst_ip@ == octets_or_zero(b.ipv4_dst_ip)
    &&& r.ipv4_version == b.ipv4_version.unwrap_or(DEFAULT_IPV4_VERSION)
    &&& r.ipv4_header_length == b.ipv4_header_length.unwrap_or(DEFAULT_IPV4_HEADER_LENGTH)
    &&& r.ipv4_dscp == b.ipv4_dscp.unwrap_or(DEFAULT_IPV4_DSCP)
    &&& r.ipv4_ecn == b.ipv4_ecn.unwrap_or(DEFAULT_IPV4_ECN)
    &&& r.ipv4_identification == b.ipv4_identification.unwrap_or(DEFAULT_IPV4_IDENTIFICATION)
    &&& r.ipv4_next_level_protocol == b.ipv4_next_level_protocol.unwrap_or(IP_PROTOCOL_TCP)
    &&& r.ipv4_flags == b.ipv4_flags.unwrap_or(DEFAULT_IPV4_FLAGS)
    &&& r.tcp_flags == b.tcp_flags.unwrap_or(DEFAULT_TCP_FLAGS)
    &&& r.src_port == b.src_port.unwrap_or(DEFAULT_SRC_PORT)
    &&& r.dst_port == b.dst_port.unwrap_or(DEFAULT_DST_PORT)
    &&& r.timeout == b.timeout.unwrap_or(DEFAULT_TIMEOUT)
    &&& r.payload@ == resolved_payload(b.payload)
    &&& r.packet_count == b.packet_count.unwrap_or(DEFAULT_PACKET_COUNT)
    &&& r.interval == b.interval.unwrap_or(DEFAULT_INTERVAL)
}

/// A builder with no field set.
pub open spec fn empty_builder() -> SendPacketSettingsBuilder {
    SendPacketSettingsBuilder {
        ethernet_src_mac: None,
        ethernet_dst_mac: None,
        ipv4_src_ip: None,
        ipv4_dst_ip: None,
        ipv4_version: None,
        ipv4_header_length: None,
        ipv4_dscp: None,
        ipv4_ecn: None,
        ipv4_identification: None,
        ipv4_next_level_protocol: None,
        ipv4_flags: None,
        tcp_flags: None,
        src_port: None,
        dst_port: None,
        timeout: None,
        payload: None,
        packet_count: None,
        interval: None,
    }
}

impl SendPacketSettingsBuilder {
    /// A builder with no field set.
    pub fn new() -> (r: Self)
        ensures
            r == empty_builder(),
    {
        SendPacketSettingsBuilder {
            ethernet_src_mac: None,
            ethernet_dst_mac: None,
            ipv4_src_ip: None,
            ipv4_dst_ip: None,
            ipv4_version: None,
            ipv4_header_length: None,
            ipv4_dscp: None,
            ipv4_ecn: None,
            ipv4_identification: None,
            ipv4_next_level_protocol: None,
            ipv4_flags: None,
            tcp_flags: None,
            src_port: None,
            dst_port: None,
            timeout: None,
            payload: None,
            packet_count: None,
            interval: None,
        }
    }

    /// Link-layer source address.
    pub fn ethernet_src_mac(self, value: [u8; 6]) -> (r: Self)
        ensures
            r == (Self { ethernet_src_mac: Some(value), ..self }),
    {
        Self { ethernet_src_mac: Some(value), ..self }
    }

    /// Link-layer destination address.
    pub fn ethernet_dst_mac(self, value: [u8; 6]) -> (r: Self)
        ensures
            r == (Self { ethernet_dst_mac: Some(value), ..self }),
    {
        Self { ethernet_dst_mac: Some(value), ..self }
    }

    /// IPv4 source address, in network order.
    pub fn ipv4_src_ip(self, value: [u8; 4]) -> (r: Self)
        ensures
            r == (Self { ipv4_src_ip: Some(value), ..self }),
    {
        Self { ipv4_src_ip: Some(value), ..self }
    }

    /// IPv4 destination address, in network order.
    pub fn ipv4_dst_ip(self, value: [u8; 4]) -> (r: Self)
        ensures
            r == (Self { ipv4_dst_ip: Some(value), ..self }),
    {
        Self { ipv4_dst_ip: Some(value), ..self }
    }

    /// IP version; 4 by default.
    pub fn ipv4_version(self, value: u8) -> (r: Self)
        ensures
            r == (Self { ipv4_version: Some(value), ..self }),
    {
        Self { ipv4_version: Some(value), ..self }
    }

    /// IPv4 header length in words; 5 by default.
    pub fn ipv4_header_length(self, value: u8) -> (r: Self)
        ensures
            r == (Self { ipv4_header_length: Some(value), ..self }),
    {
        Self { ipv4_header_length: Some(value), ..self }
    }

    /// Differentiated services code point; 0 by default.
    pub fn ipv4_dscp(self, value: u8) -> (r: Self)
        ensures
            r == (Self { ipv4_dscp: Some(value), ..self }),
    {
        Self { ipv4_dscp: Some(value), ..self }
    }

    /// Explicit congestion notification; 0 by default.
    pub fn ipv4_ecn(self, value: u8) -> (r: Self)
        ensures
            r == (Self { ipv4_ecn: Some(value), ..self }),
    {
        Self { ipv4_ecn: Some(value), ..self }
    }

    /// IPv4 identification; 0 by default.
    pub fn ipv4_identification(self, value: u16) -> (r: Self)
        ensures
            r == (Self { ipv4_identification: Some(value), ..self }),
    {
        Self { ipv4_identification: Some(value), ..self }
    }

    /// IP protocol number; TCP by default.
    pub fn ipv4_next_level_protocol(self, value: u8) -> (r: Self)
        ensures
            r == (Self { ipv4_next_level_protocol: Some(value), ..self }),
    {
        Self { ipv4_next_level_protocol: Some(value), ..self }
    }

    /// IPv4 flags (bit 1: do not fragment, bit 0: more fragments); 0 by default.
    pub fn ipv4_flags(self, value: u8) -> (r: Self)
        ensures
            r == (Self { ipv4_flags: Some(value), ..self }),
    {
        Self { ipv4_flags: Some(value), ..self }
    }

    /// TCP flags; SYN by default.
    pub fn tcp_flags(self, value: u8) -> (r: Self)
        ensures
            r == (Self { tcp_flags: Some(value), ..self }),
    {
        Self { tcp_flags: Some(value), ..self }
    }

    /// TCP source port; 10000 by default.
    pub fn src_port(self, value: u16) -> (r: Self)
        ensures
            r == (Self { src_port: Some(value), ..self }),
    {
        Self { src_port: Some(value), ..self }
    }

    /// TCP destination port; 20000 by default.
    pub fn dst_port(self, value: u16) -> (r: Self)
        ensures
            r == (Self { dst_port: Some(value), ..self }),
    {
        Self { dst_port: Some(value), ..self }
    }

    /// Per-send timeout; 10 seconds by default.
    pub fn timeout(self, value: Nanos) -> (r: Self)
        ensures
            r == (Self { timeout: Some(value), ..self }),
    {
        Self { timeout: Some(value), ..self }
    }

    /// Payload; 1000 zero bytes by default.
    pub fn payload(self, value: Vec<u8>) -> (r: Self)
        ensures
            r == (Self { payload: Some(value), ..self }),
    {
        Self { payload: Some(value), ..self }
    }

    /// Number of frames to send; 1 by default.
    pub fn packet_count(self, value: usize) -> (r: Self)
        ensures
            r == (Self { packet_count: Some(value), ..self }),
    {
        Self { packet_count: Some(value), ..self }
    }

    /// Pause after each write; 1 second by default.
    pub fn interval(self, value: Nanos) -> (r: Self)
        ensures
            r == (Self { interval: Some(value), ..self }),
    {
        Self { interval: Some(value), ..self }
    }

    /// The settings record: each field set on the builder, the default for the rest.
    pub fn build(self) -> (r: SendPacketSettings)
        ensures
            resolves_to(self, r),
    {
        let payload = match self.payload {
            Some(p) => p,
            None => zero_payload(),
        };
        SendPacketSettings {
            ethernet_src_mac: match self.ethernet_src_mac { Some(a) => a, None => zero_mac() },
            ethernet_dst_mac: match self.ethernet_dst_mac { Some(a) => a, None => zero_mac() },
            ipv4_src_ip: match self.ipv4_src_ip { Some(a) => a, None => zero_ip() },
            ipv4_dst_ip: match self.ipv4_dst_ip { Some(a) => a, None => zero_ip() },
            ipv4_version: self.ipv4_version.unwrap_or(DEFAULT_IPV4_VERSION),
            ipv4_header_length: self.ipv4_header_length.unwrap_or(DEFAULT_IPV4_HEADER_LENGTH),
            ipv4_dscp: self.ipv4_dscp.unwrap_or(DEFAULT_IPV4_DSCP),
            ipv4_ecn: self.ipv4_ecn.unwrap_or(DEFAULT_IPV4_ECN),
            ipv4_identification: self.ipv4_identification.unwrap_or(DEFAULT_IPV4_IDENTIFICATION),
            ipv4_next_level_protocol: self.ipv4_next_level_protocol.unwrap_or(IP_PROTOCOL_TCP),
            ipv4_flags: self.ipv4_flags.unwrap_or(DEFAULT_IPV4_FLAGS),
            tcp_flags: self.tcp_flags.unwrap_or(DEFAULT_TCP_FLAGS),
            src_port: self.src_port.unwrap_or(DEFAULT_SRC_PORT),
            dst_port: self.dst_port.unwrap_or(DEFAULT_DST_PORT),
            timeout: self.timeout.unwrap_or(DEFAULT_TIMEOUT),
            payload,
            packet_count: self.packet_count.unwrap_or(DEFAULT_PACKET_COUNT),
            interval: self.interval.unwrap_or(DEFAULT_INTERVAL),
        }
    }
}

fn zero_mac() -> (r: [u8; 6])
    ensures
        r@ == Seq::new(6, |i: int| 0u8),
{
    let r = [0u8, 0, 0, 0, 0, 0];
    assert(r@ =~= Seq::new(6, |i: int| 0u8));
    r
}

fn zero_ip() -> (r: [u8; 4])
    ensures
        r@ == Seq::new(4, |i: int| 0u8),
{
    let r = [0u8, 0, 0, 0];
    assert(r@ =~= Seq::new(4, |i: int| 0u8));
    r
}

fn zero_payload() -> (r: Vec<u8>)
    ensures
        r@ == default_payload(),
{
    let mut v: Vec<u8> = Vec::with_capacity(DEFAULT_PAYLOAD_LEN);
    let mut i: usize = 0;
    while i < DEFAULT_PAYLOAD_LEN
        invariant
            i <= DEFAULT_PAYLOAD_LEN,
            v@ == Seq::new(i as nat, |j: int| 0u8),
        decreases DEFAULT_PAYLOAD_LEN - i,
    {
        v.push(0u8);
        i = i + 1;
        assert(v@ =~= Seq::new(i as nat, |j: int| 0u8));
    }
    v
}

/// `r` is the preset of defaults: what an empty builder resolves to.
pub open spec fn is_default_preset(r: SendPacketSettings) -> bool {
    resolves_to(empty_builder(), r)
}

/// `r` is the web probe preset: one-byte zero payload in SYN segments from
/// 36.13.145.72:12000 to 160.251.215.3:80, one per second; the other fields
/// take their defaults.
pub open spec fn is_web_probe_preset(r: SendPacketSettings) -> bool {
    &&& r.ethernet_src_mac@ == Seq::new(6, |i: int| 0u8)
    &&& r.ethernet_dst_mac@ == Seq::new(6, |i: int| 0u8)
    &&& r.ipv4_src_ip@ == seq![36u8, 13, 145, 72]
    &&& r.ipv4_dst_ip@ == seq![160u8, 251, 215, 3]
    &&& r.ipv4_version == DEFAULT_IPV4_VERSION
    &&& r.ipv4_header_length == DEFAULT_IPV4_HEADER_LENGTH
    &&& r.ipv4_dscp == DEFAULT_IPV4_DSCP
    &&& r.ipv4_ecn == DEFAULT_IPV4_ECN
    &&& r.ipv4_identification == DEFAULT_IPV4_IDENTIFICATION
    &&& r.ipv4_next_level_protocol == IP_PROTOCOL_TCP
    &&& r.ipv4_flags == DEFAULT_IPV4_FLAGS
    &&& r.tcp_flags == TCP_FLAG_SYN
    &&& r.src_port == 12000
    &&& r.dst_port == 80
    &&& r.timeout == DEFAULT_TIMEOUT
    &&& r.payload@ == seq![0u8]
    &&& r.packet_count == WEB_PROBE_PACKET_COUNT
    &&& r.interval == NANOS_PER_SEC
}

/// Number of frames the web probe preset sends.
pub const WEB_PROBE_PACKET_COUNT: usize = 100_000_000;

/// The names of the catalogue, in order.
pub open spec fn is_preset_name(name: Seq<char>) -> bool {
    name == "default"@ || name == "web_probe"@
}

/// Looks a preset up by name. `"default"` gives the record of defaults,
/// `"web_probe"` the web probe record; any other name is `SettingsNotFound`.
pub fn preset(name: &str) -> (r: Result<SendPacketSettings, PacketSenderError>)
    ensures
        r is Ok <==> is_preset_name(name@),
        name@ == "default"@ ==> r is Ok && is_default_preset(r->Ok_0),
        name@ == "web_probe"@ ==> r is Ok && is_web_probe_preset(r->Ok_0),
        r is Err ==> r->Err_0 == PacketSenderError::SettingsNotFound,
{
    proof {
        reveal_strlit("default");
        reveal_strlit("web_probe");
        assert("default"@[0] != "web_probe"@[0]);
    }
    let wanted = String::from_str(name);
    if wanted == String::from_str("default") {
        Ok(SendPacketSettingsBuilder::new().build())
    } else if wanted == String::from_str("web_probe") {
        let mut payload: Vec<u8> = Vec::new();
        payload.push(0u8);
        let r = SendPacketSettingsBuilder::new()
            .ipv4_src_ip([36u8, 13, 145, 72])
            .ipv4_dst_ip([160u8, 251, 215, 3])
            .src_port(12000)
            .dst_port(80)
            .tcp_flags(TCP_FLAG_SYN)
            .payload(payload)
            .packet_count(WEB_PROBE_PACKET_COUNT)
            .interval(NANOS_PER_SEC)
            .build();
        assert(r.ipv4_src_ip@ =~= seq![36u8, 13, 145, 72]);
        assert(r.ipv4_dst_ip@ =~= seq![160u8, 251, 215, 3]);
        assert(r.payload@ =~= seq![0u8]);
        assert(r.ethernet_src_mac@ =~= Seq::new(6, |i: int| 0u8));
        assert(r.ethernet_dst_mac@ =~= Seq::new(6, |i: int| 0u8));
        Ok(r)
    } else {
        Err(PacketSenderError::SettingsNotFound)
    }
}

} // verus!
