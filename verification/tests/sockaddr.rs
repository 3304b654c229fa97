use tun::platform::posix::sockaddr::{rs_addr_to_sockaddr, sockaddr_to_rs_addr};
use tun::platform::posix::{SockAddr, Sockaddr, SocketAddress};
use tun::Error;

fn little_endian() -> bool {
    u16::from_ne_bytes([1, 0]) == 1
}

#[test]
fn test_sockaddr() {
    let old = [127u8, 0, 0, 1];
    let addr = SockAddr::from_ipv4(old);
    let s_addr = u32::from_ne_bytes(addr.addr);
    if little_endian() {
        assert_eq!(0x0100007f, s_addr);
    } else {
        assert_eq!(0x7f000001, s_addr);
    }
    let ip = addr.to_ipv4();
    assert_eq!(ip, old);
}

#[test]
fn test_conversion() {
    let old = SocketAddress::V4 { ip: [127, 0, 0, 1], port: 0x0208 };
    let addr = rs_addr_to_sockaddr(old);
    let s_addr = u32::from_ne_bytes(addr.addr4);
    let sin_port = u16::from_ne_bytes(addr.port);
    if little_endian() {
        assert_eq!(0x0100007f, s_addr);
        assert_eq!(0x0802, sin_port);
    } else {
        assert_eq!(0x7f000001, s_addr);
        assert_eq!(0x0208, sin_port);
    }
    let ip = sockaddr_to_rs_addr(&addr).unwrap();
    assert_eq!(ip, old);

    let mut localhost6 = [0u8; 16];
    localhost6[15] = 1;
    let old = SocketAddress::V6 { ip: localhost6, port: 0x0208 };
    let addr = rs_addr_to_sockaddr(old);
    let ip = sockaddr_to_rs_addr(&addr).unwrap();
    assert_eq!(ip, old);
}

#[test]
fn sockaddr_families_and_unknown_family() {
    let v4 = rs_addr_to_sockaddr(SocketAddress::V4 { ip: [10, 0, 0, 2], port: 80 });
    assert_eq!(v4.family, 2);
    assert_eq!(v4.port, [0, 80]);
    assert_eq!(v4.addr6, [0u8; 16]);
    let v6 = rs_addr_to_sockaddr(SocketAddress::V6 { ip: [0xfe; 16], port: 443 });
    assert_eq!(v6.family, 10);
    assert_eq!(v6.port, [1, 187]);
    assert_eq!(v6.addr4, [0u8; 4]);
    let mut other = v4;
    other.family = 1;
    assert_eq!(sockaddr_to_rs_addr(&other), None);
}

#[test]
fn sockaddr_new_checks_family() {
    let generic = SockAddr::from_ipv4([192, 168, 0, 1]).to_sockaddr();
    assert_eq!(generic.family, 2);
    assert_eq!(&generic.data[2..6], &[192, 168, 0, 1]);
    assert_eq!(&generic.data[6..], &[0u8; 8]);
    let back = SockAddr::new(&generic).unwrap();
    assert_eq!(back, SockAddr::from_ipv4([192, 168, 0, 1]));

    let wrong = Sockaddr { family: 10, data: generic.data };
    assert_eq!(SockAddr::new(&wrong), Err(Error::InvalidAddress));
    let forced = SockAddr::unchecked(&wrong).unwrap();
    assert_eq!(forced.family, 10);
    assert_eq!(forced.to_ipv4(), [192, 168, 0, 1]);
}
