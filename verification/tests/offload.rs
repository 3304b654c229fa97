use tun::platform::linux::offload::coalesce::CoalesceResult;
use tun::platform::linux::offload::packet::{
    IpHeaders, IpPacket, Ipv4Header, Ipv6Header, TcpHeader, TcpPacket, UdpHeader, UdpPacket,
};
use tun::platform::linux::offload::tcp::TcpGroItem;
use tun::platform::linux::offload::udp::UdpGroItem;
use tun::platform::linux::offload::virtio::{VirtioNetHeader, VIRTIO_NET_HEADER_SIZE};
use tun::platform::linux::offload::GroTable;
use tun::Error;

fn v4(ttl: u8) -> IpHeaders {
    IpHeaders::Ipv4(Ipv4Header { dscp: 0, ecn: 0, dont_fragment: true, time_to_live: ttl })
}

fn v6(hop: u8) -> IpHeaders {
    IpHeaders::Ipv6(Ipv6Header { traffic_class: 0, hop_limit: hop })
}

#[test]
fn gro_table_get_or_insert_keeps_first() {
    let mut t: GroTable<u64, u32> = GroTable::new();
    assert_eq!(*t.get_or_insert(1, 10), vec![10]);
    assert_eq!(*t.get_or_insert(1, 20), vec![10]);
    assert_eq!(*t.get_or_insert(2, 30), vec![30]);
}

#[test]
fn gro_table_changes_through_get_or_insert_stay() {
    let mut t: GroTable<u64, u32> = GroTable::new();
    t.get_or_insert(4, 1).push(2);
    assert_eq!(*t.get_or_insert(4, 9), vec![1, 2]);
    assert_eq!(t.update_at(4, 1, 5), Ok(()));
    assert_eq!(*t.get_or_insert(4, 9), vec![1, 5]);
}

#[test]
fn gro_table_update_and_delete() {
    let mut t: GroTable<u64, u32> = GroTable::new();
    t.get_or_insert(1, 10);
    assert_eq!(t.update_at(1, 0, 11), Ok(()));
    assert_eq!(*t.get_or_insert(1, 99), vec![11]);
    assert_eq!(t.update_at(1, 1, 12), Err(Error::OffloadFlowNotFound));
    assert_eq!(t.update_at(7, 0, 12), Err(Error::OffloadFlowNotFound));
    assert_eq!(*t.get_or_insert(1, 99), vec![11]);
    assert_eq!(t.delete_at(7, 0), Err(Error::OffloadFlowNotFound));
    assert_eq!(t.delete_at(1, 0), Ok(()));
    // the flow stays, with no items
    assert_eq!(*t.get_or_insert(1, 99), Vec::<u32>::new());
    assert_eq!(t.update_at(1, 0, 5), Err(Error::OffloadFlowNotFound));
}

#[test]
fn gro_table_update_last_wins_and_clear() {
    let mut t: GroTable<u64, u32> = GroTable::new();
    t.get_or_insert(3, 1);
    t.update_at(3, 0, 2).unwrap();
    t.update_at(3, 0, 4).unwrap();
    assert_eq!(*t.get_or_insert(3, 0), vec![4]);
    t.clear();
    assert_eq!(*t.get_or_insert(3, 8), vec![8]);
}

#[test]
fn ip_headers_coalesce() {
    let a = Ipv4Header { dscp: 1, ecn: 2, dont_fragment: false, time_to_live: 64 };
    assert!(a.can_coalesce(&a));
    assert!(!a.can_coalesce(&Ipv4Header { dscp: 2, ..a }));
    assert!(!a.can_coalesce(&Ipv4Header { ecn: 0, ..a }));
    assert!(!a.can_coalesce(&Ipv4Header { dont_fragment: true, ..a }));
    assert!(!a.can_coalesce(&Ipv4Header { time_to_live: 63, ..a }));
    let b = Ipv6Header { traffic_class: 3, hop_limit: 9 };
    assert!(b.can_coalesce(&b));
    assert!(!b.can_coalesce(&Ipv6Header { hop_limit: 8, ..b }));
    assert!(!b.can_coalesce(&Ipv6Header { traffic_class: 0, ..b }));
    assert!(v4(64).can_coalesce(&v4(64)));
    assert!(!v4(64).can_coalesce(&v6(64)));
    assert!(!v6(64).can_coalesce(&v4(64)));
}

fn tcp(seq: u32, psh: bool, len: usize, header: IpHeaders) -> IpPacket<TcpPacket> {
    IpPacket {
        header,
        transport: TcpPacket { header: TcpHeader { sequence_number: seq, psh }, data: vec![0; len] },
    }
}

fn tcp_item(seq: u32, len: usize, merged: u32) -> TcpGroItem {
    TcpGroItem { ip_header: v4(64), data: vec![0; len], num_merged: merged, seq_num: seq }
}

#[test]
fn tcp_segments_coalesce_when_adjacent() {
    let item = tcp_item(1000, 100, 0);
    // follows the item
    assert!(tcp(1100, false, 100, v4(64)).can_coalesce(&item));
    assert!(tcp(1100, false, 50, v4(64)).can_coalesce(&item));
    assert!(!tcp(1100, false, 101, v4(64)).can_coalesce(&item));
    assert!(!tcp(1100, true, 100, v4(64)).can_coalesce(&item));
    // precedes the item
    assert!(tcp(900, false, 100, v4(64)).can_coalesce(&item));
    assert!(tcp(800, false, 200, v4(64)).can_coalesce(&item));
    assert!(!tcp(950, false, 50, v4(64)).can_coalesce(&item));
    assert!(!tcp(900, true, 100, v4(64)).can_coalesce(&item));
    // neither
    assert!(!tcp(1200, false, 100, v4(64)).can_coalesce(&item));
    // different IP header
    assert!(!tcp(1100, false, 100, v4(63)).can_coalesce(&item));
    assert!(!tcp(1100, false, 100, v6(64)).can_coalesce(&item));
}

#[test]
fn tcp_span_counts_merged_segments() {
    let item = tcp_item(1000, 100, 2);
    assert!(tcp(1300, false, 100, v4(64)).can_coalesce(&item));
    assert!(!tcp(1100, false, 100, v4(64)).can_coalesce(&item));
    // a longer preceding segment cannot join an item with merged segments
    assert!(!tcp(800, false, 200, v4(64)).can_coalesce(&item));
    assert!(tcp(900, false, 100, v4(64)).can_coalesce(&item));
}

#[test]
fn tcp_coalesce_takes_sequence_number() {
    let mut item = tcp_item(1000, 100, 0);
    let mut p = tcp(900, false, 100, v4(64));
    assert_eq!(p.coalesce(&mut item), Ok(()));
    assert_eq!(item.seq_num, 900);
    assert_eq!(item.data.len(), 100);
    assert_eq!(item.num_merged, 0);
    let mut psh = tcp(800, true, 100, v4(64));
    assert_eq!(psh.coalesce(&mut item), Err(Error::OffloadTcpPshFlagSet));
    assert_eq!(item.seq_num, 900);
}

fn udp(length: u16, header: IpHeaders) -> IpPacket<UdpPacket> {
    IpPacket { header, transport: UdpPacket { header: UdpHeader { length }, data: vec![1; 8] } }
}

fn udp_item(length: u16, merged: u32, bad: bool) -> UdpGroItem {
    UdpGroItem {
        ip_header: v4(64),
        udp_header: UdpHeader { length },
        data: vec![0; 8],
        num_merged: merged,
        checksum_known_invalid: bad,
    }
}

#[test]
fn udp_datagrams_coalesce() {
    let item = udp_item(100, 0, false);
    assert!(udp(100, v4(64)).can_coalesce(&item));
    assert!(udp(20, v4(64)).can_coalesce(&item));
    assert!(!udp(101, v4(64)).can_coalesce(&item));
    assert!(!udp(100, v6(64)).can_coalesce(&item));
}

#[test]
fn udp_coalesce_counts_merges() {
    let mut item = udp_item(100, 0, false);
    let mut p = udp(50, v4(64));
    assert_eq!(p.coalesce(&mut item), Ok(()));
    assert_eq!(item.num_merged, 1);
    assert_eq!(p.coalesce(&mut item), Ok(()));
    assert_eq!(item.num_merged, 2);
    let mut bad = udp_item(100, 0, true);
    assert_eq!(p.coalesce(&mut bad), Err(Error::OffloadItemInvalidChecksum));
    assert_eq!(bad.num_merged, 0);
    let mut bad_merged = udp_item(100, 1, true);
    assert_eq!(p.coalesce(&mut bad_merged), Ok(()));
    assert_eq!(bad_merged.num_merged, 2);
}

#[test]
fn coalesce_results_are_distinct() {
    assert_ne!(CoalesceResult::Success, CoalesceResult::PSHEnding);
    assert_ne!(CoalesceResult::InsufficientCapacity, CoalesceResult::ItemInvalidChecksum);
    assert_ne!(CoalesceResult::PacketInvalidChecksum, CoalesceResult::ItemInvalidChecksum);
}

#[test]
fn virtio_header_roundtrip() {
    let h = VirtioNetHeader {
        flags: 1,
        gso_type: 3,
        header_len: 0x0102,
        gso_size: 1448,
        checksum_start: 34,
        checksum_offset: 16,
    };
    let mut buf = [0xaau8; 12];
    assert_eq!(h.encode(&mut buf), Ok(()));
    let mut expected = vec![1u8, 3];
    for v in [0x0102u16, 1448, 34, 16] {
        expected.extend_from_slice(&v.to_ne_bytes());
    }
    assert_eq!(&buf[..VIRTIO_NET_HEADER_SIZE], &expected[..]);
    assert_eq!(&buf[VIRTIO_NET_HEADER_SIZE..], &[0xaa, 0xaa]);
    assert_eq!(VirtioNetHeader::decode(&buf), Ok(h));
}

#[test]
fn virtio_header_short_buffers() {
    let h = VirtioNetHeader {
        flags: 0,
        gso_type: 0,
        header_len: 0,
        gso_size: 0,
        checksum_start: 0,
        checksum_offset: 0,
    };
    let mut short = [7u8; 9];
    assert_eq!(h.encode(&mut short), Err(Error::BufferTooSmall));
    assert_eq!(short, [7u8; 9]);
    assert_eq!(VirtioNetHeader::decode(&short), Err(Error::BufferTooSmall));
    let bytes = [9u8, 8, 7, 6, 5, 4, 3, 2, 1, 0];
    let d = VirtioNetHeader::decode(&bytes).unwrap();
    assert_eq!(d.header_len, u16::from_ne_bytes([7, 6]));
    assert_eq!(d.checksum_offset, u16::from_ne_bytes([1, 0]));
    let mut out = [0u8; 10];
    d.encode(&mut out).unwrap();
    assert_eq!(out, bytes);
}
