use rconntrack::addr::Cidr;
use rconntrack::addr::IpAddress;

fn v4(a: u8, b: u8, c: u8, d: u8) -> IpAddress {
    IpAddress::V4(u32::from_be_bytes([a, b, c, d]))
}

#[test]
fn blocks_are_parsed() {
    let c = Cidr::parse("1.1.1.0/24").unwrap();
    assert_eq!(c.addr(), v4(1, 1, 1, 0));
    assert_eq!(c.prefix_len(), 24);
    let c = Cidr::parse("fd00::1/64").unwrap();
    assert_eq!(c.addr(), IpAddress::V6(0xfd00_0000_0000_0000_0000_0000_0000_0001));
    assert_eq!(c.prefix_len(), 64);
    assert_eq!(Cidr::parse("1.1.1.1"), None);
    assert_eq!(Cidr::parse("1.1.1.1/33"), None);
    assert_eq!(Cidr::parse("fd00::1/129"), None);
    assert_eq!(Cidr::parse(""), None);
    assert_eq!(Cidr::parse("conntrack"), None);
}

#[test]
fn bare_address_is_a_block_of_one() {
    let a = v4(192, 168, 0, 1);
    let c = Cidr::parse_addr_or_cidr("192.168.0.1", Some(a)).unwrap();
    assert_eq!(c, Cidr::host(a));
    assert_eq!(c.prefix_len(), 32);
    let b = IpAddress::V6(1);
    let c = Cidr::parse_addr_or_cidr("::1", Some(b)).unwrap();
    assert_eq!(c.prefix_len(), 128);
    assert_eq!(c.addr(), b);
    let c = Cidr::parse_addr_or_cidr("192.168.0.0/24", None).unwrap();
    assert_eq!(c.prefix_len(), 24);
    assert_eq!(Cidr::parse_addr_or_cidr("nothing", None), Err("nothing".to_string()));
}

#[test]
fn blocks_hold_the_addresses_with_their_prefix() {
    let c = Cidr::new(v4(10, 1, 2, 3), 8).unwrap();
    assert!(c.contains(&v4(10, 255, 0, 0)));
    assert!(c.contains(&v4(10, 0, 0, 0)));
    assert!(!c.contains(&v4(11, 0, 0, 0)));
    assert!(!c.contains(&v4(9, 255, 255, 255)));
    let all = Cidr::new(v4(10, 1, 2, 3), 0).unwrap();
    assert!(all.contains(&v4(200, 1, 1, 1)));
    assert!(!all.contains(&IpAddress::V6(5)));
    let one = Cidr::host(v4(10, 1, 2, 3));
    assert!(one.contains(&v4(10, 1, 2, 3)));
    assert!(!one.contains(&v4(10, 1, 2, 2)));
    let six = Cidr::new(IpAddress::V6(0xfd00 << 112), 16).unwrap();
    assert!(six.contains(&IpAddress::V6((0xfd00 << 112) + 77)));
    assert!(!six.contains(&IpAddress::V6(0xfd01 << 112)));
    assert!(!six.contains(&v4(1, 1, 1, 1)));
    let whole = Cidr::new(IpAddress::V6(1), 0).unwrap();
    assert!(whole.contains(&IpAddress::V6(u128::MAX)));
    assert_eq!(Cidr::new(v4(1, 1, 1, 1), 33), None);
    assert_eq!(Cidr::new(IpAddress::V6(1), 129), None);
    assert!(Cidr::new(IpAddress::V6(1), 128).is_some());
}

#[test]
fn addresses_are_their_bytes() {
    let a = v4(1, 2, 3, 4);
    assert_eq!(a.octets(), vec![1, 2, 3, 4]);
    assert_eq!(IpAddress::from_octets(&vec![1, 2, 3, 4]), Some(a));
    let b = IpAddress::V6(0x0102_0304_0506_0708_090a_0b0c_0d0e_0f10);
    let bytes: Vec<u8> = (1u8..=16).collect();
    assert_eq!(b.octets(), bytes);
    assert_eq!(IpAddress::from_octets(&bytes), Some(b));
    assert_eq!(IpAddress::from_octets(&vec![1, 2, 3]), None);
    assert_eq!(IpAddress::from_octets(&vec![]), None);
    assert!(a.is_ipv4() && !a.is_ipv6());
    assert!(b.is_ipv6() && !b.is_ipv4());
    assert_eq!(a.max_prefix_len(), 32);
    assert_eq!(b.max_prefix_len(), 128);
    assert_eq!(IpAddress::V6(u128::MAX).octets(), vec![255u8; 16]);
    assert_eq!(IpAddress::from_octets(&vec![255u8; 16]), Some(IpAddress::V6(u128::MAX)));
}
