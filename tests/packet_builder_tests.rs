use packet_sender::packet_builder::{build_frame, build_packet, HEADERS_LEN, TCP_WINDOW};
use packet_sender::settings::{SendPacketSettings, SendPacketSettingsBuilder, IP_PROTOCOL_TCP, TCP_FLAG_SYN};
use pnet::packet::ethernet::{EtherTypes, EthernetPacket};
use pnet::packet::ipv4::Ipv4Packet;
use pnet::packet::tcp::TcpPacket;
use pnet::packet::Packet;
use pnet::util::MacAddr;

fn sample_settings(payload: Vec<u8>) -> SendPacketSettings {
    SendPacketSettingsBuilder::new()
        .ethernet_src_mac([0x02, 0x11, 0x22, 0x33, 0x44, 0x55])
        .ethernet_dst_mac([0x02, 0xaa, 0xbb, 0xcc, 0xdd, 0xee])
        .ipv4_src_ip([36, 13, 145, 72])
        .ipv4_dst_ip([160, 251, 215, 3])
        .ipv4_dscp(10)
        .ipv4_ecn(1)
        .ipv4_identification(0x1234)
        .ipv4_flags(0b010)
        .src_port(12000)
        .dst_port(80)
        .tcp_flags(TCP_FLAG_SYN)
        .payload(payload)
        .build()
}

#[test]
fn frame_length_is_headers_plus_payload() {
    for len in [0usize, 1, 1000, 1460] {
        let frame = build_frame(&sample_settings(vec![7; len]), 0).unwrap();
        assert_eq!(frame.len(), HEADERS_LEN + len);
        assert_eq!(frame.len(), 54 + len);
    }
}

#[test]
fn fields_stand_at_their_offsets() {
    let payload = vec![1, 2, 3, 4, 5];
    let frame = build_frame(&sample_settings(payload.clone()), 0x0102_0304).unwrap();
    assert_eq!(&frame[0..6], &[0x02, 0xaa, 0xbb, 0xcc, 0xdd, 0xee]);
    assert_eq!(&frame[6..12], &[0x02, 0x11, 0x22, 0x33, 0x44, 0x55]);
    assert_eq!(&frame[12..14], &[0x08, 0x00]);
    assert_eq!(frame[14], 0x45);
    assert_eq!(frame[15], (10 << 2) | 1);
    assert_eq!(u16::from_be_bytes([frame[16], frame[17]]), 40 + 5);
    assert_eq!(&frame[18..20], &[0x12, 0x34]);
    assert_eq!(frame[20], 0b010 << 5);
    assert_eq!(frame[21], 0);
    assert_eq!(frame[22], 64);
    assert_eq!(frame[23], IP_PROTOCOL_TCP);
    assert_eq!(&frame[24..26], &[0, 0]);
    assert_eq!(&frame[26..30], &[36, 13, 145, 72]);
    assert_eq!(&frame[30..34], &[160, 251, 215, 3]);
    assert_eq!(u16::from_be_bytes([frame[34], frame[35]]), 12000);
    assert_eq!(u16::from_be_bytes([frame[36], frame[37]]), 80);
    assert_eq!(&frame[38..42], &[1, 2, 3, 4]);
    assert_eq!(&frame[42..46], &[0, 0, 0, 0]);
    assert_eq!(frame[46], 0x50);
    assert_eq!(frame[47], TCP_FLAG_SYN);
    assert_eq!(u16::from_be_bytes([frame[48], frame[49]]), 64240);
    assert_eq!(&frame[50..54], &[0, 0, 0, 0]);
    assert_eq!(&frame[54..], &payload[..]);
}

#[test]
fn frame_reads_back_through_pnet() {
    let payload = vec![9, 8, 7];
    let frame = build_frame(&sample_settings(payload.clone()), 77).unwrap();
    let eth = EthernetPacket::new(&frame).unwrap();
    assert_eq!(eth.get_destination(), MacAddr::new(0x02, 0xaa, 0xbb, 0xcc, 0xdd, 0xee));
    assert_eq!(eth.get_source(), MacAddr::new(0x02, 0x11, 0x22, 0x33, 0x44, 0x55));
    assert_eq!(eth.get_ethertype(), EtherTypes::Ipv4);
    let ip = Ipv4Packet::new(eth.payload()).unwrap();
    assert_eq!(ip.get_version(), 4);
    assert_eq!(ip.get_header_length(), 5);
    assert_eq!(ip.get_dscp(), 10);
    assert_eq!(ip.get_ecn(), 1);
    assert_eq!(ip.get_total_length(), 43);
    assert_eq!(ip.get_identification(), 0x1234);
    assert_eq!(ip.get_flags(), 0b010);
    assert_eq!(ip.get_fragment_offset(), 0);
    assert_eq!(ip.get_ttl(), 64);
    assert_eq!(ip.get_next_level_protocol().0, IP_PROTOCOL_TCP);
    assert_eq!(ip.get_source().octets(), [36, 13, 145, 72]);
    assert_eq!(ip.get_destination().octets(), [160, 251, 215, 3]);
    let tcp = TcpPacket::new(ip.payload()).unwrap();
    assert_eq!(tcp.get_source(), 12000);
    assert_eq!(tcp.get_destination(), 80);
    assert_eq!(tcp.get_sequence(), 77);
    assert_eq!(tcp.get_acknowledgement(), 0);
    assert_eq!(tcp.get_data_offset(), 5);
    assert_eq!(tcp.get_flags(), TCP_FLAG_SYN);
    assert_eq!(tcp.get_window(), TCP_WINDOW);
    assert_eq!(tcp.payload(), &payload[..]);
}

#[test]
fn field_values_are_cut_to_their_bit_widths() {
    let settings = SendPacketSettingsBuilder::new()
        .ipv4_version(0x1f)
        .ipv4_dscp(0xff)
        .ipv4_ecn(0xff)
        .ipv4_flags(0xff)
        .payload(vec![])
        .build();
    let frame = build_frame(&settings, 0).unwrap();
    assert_eq!(frame[14], 0xf5);
    assert_eq!(frame[15], 0xff);
    assert_eq!(frame[20], 0xe0);
}

#[test]
fn total_length_wraps_at_sixteen_bits() {
    let frame = build_frame(&sample_settings(vec![0; 65_500]), 0).unwrap();
    assert_eq!(u16::from_be_bytes([frame[16], frame[17]]), ((40 + 65_500) % 65_536) as u16);
}

#[test]
fn random_sequence_frame_differs_only_in_sequence() {
    let settings = sample_settings(vec![1, 2, 3]);
    let fixed = build_frame(&settings, 0).unwrap();
    let drawn = build_packet(&settings).unwrap();
    assert_eq!(drawn.len(), fixed.len());
    assert_eq!(&drawn[..38], &fixed[..38]);
    assert_eq!(&drawn[42..], &fixed[42..]);
}

#[test]
fn random_sequence_numbers_vary() {
    let settings = sample_settings(vec![]);
    let seqs: Vec<[u8; 4]> = (0..8)
        .map(|_| {
            let f = build_packet(&settings).unwrap();
            [f[38], f[39], f[40], f[41]]
        })
        .collect();
    assert!(seqs.iter().any(|s| *s != seqs[0]));
}
