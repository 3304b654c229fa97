use bytes::BytesMut;
use tun::codec::{generate_packet_information, is_ipv6, TunPacketCodec};
use tun::Error;

#[test]
fn ip_version_of_packets() {
    assert_eq!(is_ipv6(&[0x45, 0, 0, 20]), Ok(false));
    assert_eq!(is_ipv6(&[0x60, 0, 0, 0]), Ok(true));
    assert_eq!(is_ipv6(&[]), Err(Error::ZeroLengthData));
    assert_eq!(is_ipv6(&[0x51]), Err(Error::InvalidIpVersion(5)));
    assert_eq!(is_ipv6(&[0x0f]), Err(Error::InvalidIpVersion(0)));
}

#[test]
fn packet_information_headers() {
    assert!(generate_packet_information(false, true).is_none());
    assert!(generate_packet_information(false, false).is_none());
    let v6 = generate_packet_information(true, true).unwrap();
    assert_eq!(v6.as_ref(), &[0, 0, 0x86, 0xdd]);
    let v4 = generate_packet_information(true, false).unwrap();
    assert_eq!(v4.as_ref(), &[0, 0, 0x08, 0x00]);
}

#[test]
fn codec_decodes_everything_buffered() {
    let mut codec = TunPacketCodec::new();
    let mut buf = BytesMut::new();
    assert_eq!(codec.decode(&mut buf), None);
    buf.extend_from_slice(&[1, 2, 3]);
    assert_eq!(codec.decode(&mut buf), Some(vec![1, 2, 3]));
    assert!(buf.is_empty());
    assert_eq!(codec.decode(&mut buf), None);
}

#[test]
fn codec_encode_appends_and_roundtrips() {
    let mut codec = TunPacketCodec::new();
    let mut buf = BytesMut::new();
    codec.encode(vec![0x45, 7, 8], &mut buf);
    assert_eq!(&buf[..], &[0x45, 7, 8]);
    codec.encode(vec![9], &mut buf);
    assert_eq!(&buf[..], &[0x45, 7, 8, 9]);
    assert_eq!(codec.decode(&mut buf), Some(vec![0x45, 7, 8, 9]));
    codec.encode(Vec::new(), &mut buf);
    assert!(buf.is_empty());
}

#[test]
fn buffered_length() {
    let mut buf = BytesMut::new();
    assert_eq!(tun::codec::buffered_len(&buf), 0);
    buf.extend_from_slice(&[1, 2, 3]);
    assert_eq!(tun::codec::buffered_len(&buf), 3);
}
