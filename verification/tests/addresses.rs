use tun::{configure, netmask2prefix, startip_from_cidr, Layer, DEFAULT_MTU, PACKET_INFORMATION_LENGTH};

#[test]
fn netmask_prefix_lengths() {
    assert_eq!(netmask2prefix([255, 255, 255, 0]), 24);
    assert_eq!(netmask2prefix([255, 255, 255, 255]), 32);
    assert_eq!(netmask2prefix([0, 0, 0, 0]), 0);
    assert_eq!(netmask2prefix([255, 128, 0, 0]), 9);
    // not a contiguous mask: the one bits are counted
    assert_eq!(netmask2prefix([0, 0, 1, 3]), 3);
}

#[test]
fn startip_masks_host_bits() {
    assert_eq!(startip_from_cidr([192, 168, 1, 77], 24), [192, 168, 1, 0]);
    assert_eq!(startip_from_cidr([10, 20, 30, 40], 8), [10, 0, 0, 0]);
    assert_eq!(startip_from_cidr([10, 20, 30, 40], 0), [0, 0, 0, 0]);
    assert_eq!(startip_from_cidr([172, 16, 255, 255], 12), [172, 16, 0, 0]);
    assert_eq!(startip_from_cidr([1, 2, 3, 255], 31), [1, 2, 3, 254]);
}

#[test]
fn netmask_of_prefix_counts_back() {
    for prefix in 0..32u32 {
        let mask = startip_from_cidr([255, 255, 255, 255], prefix);
        assert_eq!(netmask2prefix(mask), prefix);
    }
}

#[test]
fn startip_is_idempotent() {
    let ip = [203, 0, 113, 99];
    for prefix in 0..32u32 {
        let start = startip_from_cidr(ip, prefix);
        assert_eq!(startip_from_cidr(start, prefix), start);
    }
}

#[test]
fn defaults() {
    let c = configure();
    assert!(c.tun_name.is_none() && c.mtu.is_none() && c.queues.is_none() && c.layer.is_none());
    assert_eq!(DEFAULT_MTU, 1500);
    assert_eq!(PACKET_INFORMATION_LENGTH, 4);
    assert_eq!(i16::from(Layer::L2), 2);
    assert_eq!(i16::from(Layer::L3), 3);
}
