use crate::error::PacketSenderError;
use crate::settings::{ETHERTYPE_IPV4, SendPacketSettings};
use vstd::prelude::*;

verus! {

/// Length of the Ethernet header.
pub const ETHERNET_HEADER_LEN: usize = 14;

/// Length of an IPv4 header without options.
pub const IPV4_HEADER_LEN: usize = 20;

/// Length of a TCP header without options.
pub const TCP_HEADER_LEN: usize = 20;

/// Length of all three headers together.
pub const HEADERS_LEN: usize = ETHERNET_HEADER_LEN + IPV4_HEADER_LEN + TCP_HEADER_LEN;

/// Time to live written into every frame.
pub const IPV4_TTL: u8 = 64;

/// TCP window size written into every frame.
pub const TCP_WINDOW: u16 = 64240;

/// Header length of the IPv4 header in 32-bit words (no options).
pub const IPV4_HEADER_WORDS: u8 = 5;

/// Data offset of the TCP header in 32-bit words (no options).
pub const TCP_DATA_OFFSET_WORDS: u8 = 5;

/// A 16-bit value in network byte order.
pub open spec fn be16(v: u16) -> Seq<u8> {
    seq![(v >> 8u16) as u8, (v & 0xffu16) as u8]
}

/// A 32-bit value in network byte order.
pub open spec fn be32(v: u32) -> Seq<u8> {
    seq![(v >> 24u32) as u8, (v >> 16u32) as u8, (v >> 8u32) as u8, v as u8]
}

/// The IPv4 total length field for a payload of `len` bytes: both
/// transport and network headers plus the payload, cut to 16 bits.
pub open spec fn ipv4_total_length(len: nat) -> u16 {
    ((40 + len) % 0x10000) as u16
}

/// First IPv4 byte: the version in the top nibble, the header length in words below.
pub open spec fn version_ihl_byte(version: u8) -> u8 {
    (((version & 0xfu8) << 4u8) | IPV4_HEADER_WORDS) as u8
}

/// Second IPv4 byte: DSCP in the top six bits, ECN in the bottom two.
pub open spec fn dscp_ecn_byte(dscp: u8, ecn: u8) -> u8 {
    (((dscp & 0x3fu8) << 2u8) | (ecn & 0x3u8)) as u8
}

/// The IPv4 flags in the top three bits; the fragment offset is zero.
pub open spec fn flags_byte(flags: u8) -> u8 {
    ((flags & 0x7u8) << 5u8) as u8
}

/// TCP data offset in the top nibble; the reserved bits are zero.
pub open spec fn data_offset_byte() -> u8 {
    (TCP_DATA_OFFSET_WORDS << 4u8) as u8
}

/// The Ethernet header: destination, source, EtherType.
pub open spec fn ethernet_header(s: SendPacketSettings) -> Seq<u8> {
    s.ethernet_dst_mac@ + s.ethernet_src_mac@ + be16(ETHERTYPE_IPV4)
}

/// The IPv4 header; its checksum field is left zero.
pub open spec fn ipv4_header(s: SendPacketSettings) -> Seq<u8> {
    seq![version_ihl_byte(s.ipv4_version), dscp_ecn_byte(s.ipv4_dscp, s.ipv4_ecn)]
        + be16(ipv4_total_length(s.payload@.len()))
        + be16(s.ipv4_identification)
        + seq![flags_byte(s.ipv4_flags), 0u8, IPV4_TTL, s.ipv4_next_level_protocol, 0u8, 0u8]
        + s.ipv4_src_ip@
        + s.ipv4_dst_ip@
}

/// The TCP header with sequence number `sequence`; acknowledgment,
/// checksum and urgent pointer are zero.
pub open spec fn tcp_header(s: SendPacketSettings, sequence: u32) -> Seq<u8> {
    be16(s.src_port)
        + be16(s.dst_port)
        + be32(sequence)
        + be32(0)
        + seq![data_offset_byte(), s.tcp_flags]
        + be16(TCP_WINDOW)
        + seq![0u8, 0u8, 0u8, 0u8]
}

/// The whole frame: the three headers, then the payload verbatim.
pub open spec fn frame_bytes(s: SendPacketSettings, sequence: u32) -> Seq<u8> {
    ethernet_header(s) + ipv4_header(s) + tcp_header(s, sequence) + s.payload@
}

/// A frame for `s` can be held in memory: its length fits in `usize`.
pub open spec fn frame_fits(s: SendPacketSettings) -> bool {
    s.payload@.len() + HEADERS_LEN <= usize::MAX
}

fn push_be16(buf: &mut Vec<u8>, v: u16)
    ensures
        final(buf)@ == old(buf)@ + be16(v),
{
    buf.push((v >> 8u16) as u8);
    buf.push((v & 0xffu16) as u8);
    assert(final(buf)@ =~= old(buf)@ + be16(v));
}

fn push_be32(buf: &mut Vec<u8>, v: u32)
    ensures
        final(buf)@ == old(buf)@ + be32(v),
{
    buf.push((v >> 24u32) as u8);
    buf.push((v >> 16u32) as u8);
    buf.push((v >> 8u32) as u8);
    buf.push(v as u8);
    assert(final(buf)@ =~= old(buf)@ + be32(v));
}

fn push_bytes(buf: &mut Vec<u8>, bytes: &[u8])
    ensures
        final(buf)@ == old(buf)@ + bytes@,
{
    let ghost start = buf@;
    let mut i: usize = 0;
    while i < bytes.len()
        invariant
            i <= bytes@.len(),
            buf@ == start + bytes@.subrange(0, i as int),
        decreases bytes@.len() - i,
    {
        buf.push(bytes[i]);
        i = i + 1;
        assert(buf@ =~= start + bytes@.subrange(0, i as int));
    }
    assert(bytes@.subrange(0, i as int) =~= bytes@);
}

/// Serialises one Ethernet+IPv4+TCP frame for `settings`, with TCP
/// sequence number `sequence`. Fails only when the frame's length does not
/// fit in `usize`.
pub fn build_frame(settings: &SendPacketSettings, sequence: u32) -> (r: Result<Vec<u8>, PacketSenderError>)
    ensures
        frame_fits(*settings) <==> r is Ok,
        r is Ok ==> r->Ok_0@ == frame_bytes(*settings, sequence),
        r is Ok ==> r->Ok_0@.len() == HEADERS_LEN + settings.payload@.len(),
        r is Err ==> r->Err_0 == PacketSenderError::PacketBuildError,
{
    let payload_len = settings.payload.len();
    if payload_len > usize::MAX - HEADERS_LEN {
        return Err(PacketSenderError::PacketBuildError);
    }
    let total_length: u16 = ((payload_len as u64 + 40) % 0x10000) as u16;
    let mut buf: Vec<u8> = Vec::with_capacity(payload_len + HEADERS_LEN);

    push_bytes(&mut buf, &settings.ethernet_dst_mac);
    push_bytes(&mut buf, &settings.ethernet_src_mac);
    push_be16(&mut buf, ETHERTYPE_IPV4);
    let ghost eth = buf@;
    assert(eth == ethernet_header(*settings));

    buf.push((((settings.ipv4_version & 0xfu8) << 4u8) | IPV4_HEADER_WORDS) as u8);
    buf.push((((settings.ipv4_dscp & 0x3fu8) << 2u8) | (settings.ipv4_ecn & 0x3u8)) as u8);
    push_be16(&mut buf, total_length);
    push_be16(&mut buf, settings.ipv4_identification);
    buf.push(((settings.ipv4_flags & 0x7u8) << 5u8) as u8);
    buf.push(0u8);
    buf.push(IPV4_TTL);
    buf.push(settings.ipv4_next_level_protocol);
    buf.push(0u8);
    buf.push(0u8);
    push_bytes(&mut buf, &settings.ipv4_src_ip);
    push_bytes(&mut buf, &settings.ipv4_dst_ip);
    assert(buf@ =~= eth + ipv4_header(*settings));
    let ghost ip = buf@;

    push_be16(&mut buf, settings.src_port);
    push_be16(&mut buf, settings.dst_port);
    push_be32(&mut buf, sequence);
    push_be32(&mut buf, 0u32);
    buf.push((TCP_DATA_OFFSET_WORDS << 4u8) as u8);
    buf.push(settings.tcp_flags);
    push_be16(&mut buf, TCP_WINDOW);
    buf.push(0u8);
    buf.push(0u8);
    buf.push(0u8);
    buf.push(0u8);
    assert(buf@ =~= ip + tcp_header(*settings, sequence));

    push_bytes(&mut buf, settings.payload.as_slice());
    Ok(buf)
}

/// Relies on rand::random::<u32>: a value drawn from the thread-local
/// generator. Any `u32` may come back, so nothing is promised of it.
#[verifier::external_body]
fn random_sequence() -> (r: u32) {
    rand::random::<u32>()
}

/// Serialises the template frame for `settings` with a sequence number
/// drawn at random. Fails only when the frame's length does not fit in `usize`.
pub fn build_packet(settings: &SendPacketSettings) -> (r: Result<Vec<u8>, PacketSenderError>)
    ensures
        frame_fits(*settings) <==> r is Ok,
        r is Ok ==> exists|sequence: u32| r->Ok_0@ == frame_bytes(*settings, sequence),
        r is Ok ==> r->Ok_0@.len() == HEADERS_LEN + settings.payload@.len(),
        r is Err ==> r->Err_0 == PacketSenderError::PacketBuildError,
{
    let sequence = random_sequence();
    build_frame(settings, sequence)
}

/// Big-endian value of two bytes.
pub open spec fn be16_value(hi: u8, lo: u8) -> int {
    hi as int * 256 + lo as int
}

proof fn lemma_be16_value(v: u16)
    ensures
        be16_value(be16(v)[0], be16(v)[1]) == v,
{
    let hi = (v >> 8u16) as u8;
    let lo = (v & 0xffu16) as u8;
    assert(hi as u16 * 256u16 + lo as u16 == v) by (bit_vector)
        requires
            hi == (v >> 8u16) as u8,
            lo == (v & 0xffu16) as u8,
    ;
}

/// Every frame is exactly the three fixed-size headers plus the payload.
pub proof fn lemma_frame_length(s: SendPacketSettings, sequence: u32)
    ensures
        frame_bytes(s, sequence).len() == HEADERS_LEN + s.payload@.len(),
{
}

/// The configured fields stand at their fixed offsets in every frame:
/// link addresses at 0..6 and 6..12, the IPv4 EtherType at 12..14, the IP
/// version (cut to four bits) in the top nibble of byte 14, the IPv4
/// addresses at 26..30 and 30..34, the TCP ports at 34..36 and 36..38, the
/// data offset 5 in the top nibble of byte 46 and the TCP flags at byte 47.
/// Bytes 16..18 hold the total length `40 + payload` whenever that fits the
/// 16-bit field.
pub proof fn lemma_field_placement(s: SendPacketSettings, sequence: u32)
    ensures
        ({
            let f = frame_bytes(s, sequence);
            &&& f.subrange(0, 6) == s.ethernet_dst_mac@
            &&& f.subrange(6, 12) == s.ethernet_src_mac@
            &&& be16_value(f[12], f[13]) == ETHERTYPE_IPV4
            &&& f[14] >> 4u8 == s.ipv4_version & 0xfu8
            &&& s.ipv4_version <= 15 ==> f[14] >> 4u8 == s.ipv4_version
            &&& 40 + s.payload@.len() <= u16::MAX ==> be16_value(f[16], f[17]) == 40 + s.payload@.len()
            &&& f.subrange(26, 30) == s.ipv4_src_ip@
            &&& f.subrange(30, 34) == s.ipv4_dst_ip@
            &&& be16_value(f[34], f[35]) == s.src_port
            &&& be16_value(f[36], f[37]) == s.dst_port
            &&& f[46] >> 4u8 == TCP_DATA_OFFSET_WORDS
            &&& f[47] == s.tcp_flags
        }),
{
    let f = frame_bytes(s, sequence);
    let eth = ethernet_header(s);
    let ip = ipv4_header(s);
    let tcp = tcp_header(s, sequence);
    assert(f.subrange(0, 6) =~= s.ethernet_dst_mac@);
    assert(f.subrange(6, 12) =~= s.ethernet_src_mac@);
    lemma_be16_value(ETHERTYPE_IPV4);
    assert(f[12] == eth[12] && f[13] == eth[13]);
    let v = s.ipv4_version;
    assert((((v & 0xfu8) << 4u8) | 5u8) >> 4u8 == v & 0xfu8) by (bit_vector);
    assert(v <= 15 ==> v & 0xfu8 == v) by (bit_vector);
    assert(f[14] == ip[0]);
    let tl = ipv4_total_length(s.payload@.len());
    assert(40 + s.payload@.len() <= u16::MAX ==> tl == 40 + s.payload@.len());
    lemma_be16_value(tl);
    assert(f[16] == ip[2] && f[17] == ip[3]);
    assert(f.subrange(26, 30) =~= s.ipv4_src_ip@);
    assert(f.subrange(30, 34) =~= s.ipv4_dst_ip@);
    lemma_be16_value(s.src_port);
    lemma_be16_value(s.dst_port);
    assert(f[34] == tcp[0] && f[35] == tcp[1] && f[36] == tcp[2] && f[37] == tcp[3]);
    assert(((5u8 << 4u8) as u8) >> 4u8 == 5u8) by (bit_vector);
    assert(f[46] == tcp[12] && f[47] == tcp[13]);
}

} // verus!
