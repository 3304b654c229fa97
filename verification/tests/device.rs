use tun::platform::bsd::device::{address_from_request, address_to_request, enabled_flags, mtu_from_request};
use tun::platform::bsd::Device;
use tun::platform::posix::{Sockaddr, Tun};
use tun::{configure, Configuration, Error};

#[test]
fn tun_buffers_and_header() {
    let tun = Tun::new(5, 1500, true);
    assert!(tun.packet_information());
    assert_eq!(tun.mtu(), 1500);
    let plain = Tun::new(5, 1500, false);
    assert!(!plain.packet_information());
}

#[test]
fn reader_strips_header() {
    let mut tun = Tun::new(3, 8, true);
    let reader = tun.reader_mut();
    assert_eq!(reader.fd(), 3);
    {
        let buf = reader.buffer_mut();
        assert_eq!(buf.len(), 12);
        buf[..7].copy_from_slice(&[0, 0, 8, 0, 0x45, 1, 2]);
    }
    let mut out = [0xffu8; 5];
    let n = reader.read_buffered(7, &mut out);
    assert_eq!(n, 3);
    assert_eq!(out, [0x45, 1, 2, 0xff, 0xff]);
}

#[test]
fn reader_without_header() {
    let mut tun = Tun::new(3, 4, false);
    let reader = tun.reader_mut();
    reader.buffer_mut()[..2].copy_from_slice(&[0x60, 9]);
    let mut out = [0u8; 2];
    assert_eq!(reader.read_buffered(2, &mut out), 2);
    assert_eq!(out, [0x60, 9]);
}

#[test]
fn writer_prepends_header() {
    let mut tun = Tun::new(4, 8, true);
    let writer = tun.writer_mut();
    assert_eq!(writer.fd(), 4);
    let frame = writer.frame(&[0x60, 1, 2]).unwrap().to_vec();
    assert_eq!(frame, vec![0, 0, 0x86, 0xdd, 0x60, 1, 2]);
    let frame = writer.frame(&[0x45, 1]).unwrap().to_vec();
    assert_eq!(frame, vec![0, 0, 0x08, 0x00, 0x45, 1]);
    assert_eq!(writer.written(6), 2);
    assert_eq!(writer.frame(&[0x10]).err(), Some(Error::InvalidIpVersion(1)));
    assert_eq!(writer.frame(&[]).err(), Some(Error::ZeroLengthData));
}

#[test]
fn writer_without_header_passes_packets() {
    let mut tun = Tun::new(4, 8, false);
    let writer = tun.writer_mut();
    let frame = writer.frame(&[0x10, 2]).unwrap().to_vec();
    assert_eq!(frame, vec![0x10, 2]);
    assert_eq!(writer.written(2), 2);
}

#[test]
fn frame_then_read_gives_packet_back() {
    let mut tun = Tun::new(9, 16, true);
    let frame = tun.writer_mut().frame(&[0x45, 0xde, 0xad]).unwrap().to_vec();
    let reader = tun.reader_mut();
    reader.buffer_mut()[..frame.len()].copy_from_slice(&frame);
    let mut out = [0u8; 3];
    assert_eq!(reader.read_buffered(frame.len(), &mut out), 3);
    assert_eq!(out, [0x45, 0xde, 0xad]);
}

#[test]
fn tun_set_mtu_records_value() {
    let mut tun = Tun::new(1, 100, true);
    tun.set_mtu(200);
    assert_eq!(tun.mtu(), 200);
    assert!(tun.packet_information());
    assert_eq!(tun.reader_mut().buffer_mut().len(), 104);
}

#[test]
fn device_settings() {
    let c = configure();
    let (name, mtu) = Device::settings(&c).unwrap();
    assert_eq!(name, "tun0");
    assert_eq!(mtu, 1500);

    let c = Configuration { tun_name: Some("utun7".to_string()), mtu: Some(9000), queues: Some(1), layer: None };
    assert_eq!(Device::settings(&c), Ok(("utun7".to_string(), 9000)));

    let c = Configuration { tun_name: Some("a\0b".to_string()), ..configure() };
    assert_eq!(Device::settings(&c), Err(Error::NulInName));

    let c = Configuration { tun_name: Some("x".repeat(16)), ..configure() };
    assert_eq!(Device::settings(&c), Err(Error::NameTooLong));
    let c = Configuration { tun_name: Some("x".repeat(15)), ..configure() };
    assert!(Device::settings(&c).is_ok());

    let c = Configuration { queues: Some(2), ..configure() };
    assert_eq!(Device::settings(&c), Err(Error::InvalidQueuesNumber));
}

#[test]
fn device_parts() {
    let mut d = Device::from_parts("tun3".to_string(), Tun::new(7, 64, false), 8);
    assert_eq!(d.tun_name(), Ok("tun3".to_string()));
    assert_eq!(d.set_tun_name("other"), Err(Error::InvalidName));
    assert_eq!(d.tun_name(), Ok("tun3".to_string()));
    assert!(!d.packet_information());
    assert_eq!(d.ctl(), 8);
    assert_eq!(d.tun_mut().mtu(), 64);
    let (reader, writer) = d.split();
    assert_eq!(reader.fd(), 7);
    assert_eq!(writer.fd(), 7);
}

#[test]
fn interface_requests() {
    assert_eq!(enabled_flags(0x1000, true), 0x1041);
    assert_eq!(enabled_flags(0x1041, false), 0x1040);
    assert_eq!(mtu_from_request(1500), Ok(1500));
    assert_eq!(mtu_from_request(-1), Err(Error::TryFromIntError));
    assert_eq!(mtu_from_request(70000), Err(Error::TryFromIntError));
    let req = address_to_request([10, 1, 2, 3]);
    assert_eq!(address_from_request(&req), Ok([10, 1, 2, 3]));
    let v6 = Sockaddr { family: 10, data: [0; 14] };
    assert_eq!(address_from_request(&v6), Err(Error::InvalidAddress));
}

#[test]
fn tun_keeps_header_setting() {
    let mut tun = Tun::new(2, 32, true);
    tun.set_mtu(64);
    tun.reader_mut().set_mtu(10);
    tun.writer_mut().frame(&[0x45, 1]).unwrap();
    assert!(tun.packet_information());
    assert_eq!(tun.reader_mut().offset(), 4);
    assert_eq!(tun.writer_mut().offset(), 4);
    let mut plain = Tun::new(2, 32, false);
    plain.set_mtu(8);
    assert!(!plain.packet_information());
    assert_eq!(plain.reader_mut().offset(), 0);
    assert_eq!(plain.writer_mut().offset(), 0);
}

#[test]
fn writer_buffer_untouched_without_header_or_on_error() {
    let mut tun = Tun::new(4, 4, true);
    let writer = tun.writer_mut();
    writer.frame(&[0x45, 1, 2, 3]).unwrap();
    assert!(writer.frame(&[0x30]).is_err());
    // the frame built before is still in the buffer
    assert_eq!(writer.frame(&[0x45, 1, 2, 3]).unwrap().to_vec(), vec![0, 0, 8, 0, 0x45, 1, 2, 3]);
    let mut plain = Tun::new(4, 4, false);
    let writer = plain.writer_mut();
    assert_eq!(writer.frame(&[]).unwrap().to_vec(), Vec::<u8>::new());
    assert_eq!(writer.frame(&[0x30, 1]).unwrap().to_vec(), vec![0x30, 1]);
}
