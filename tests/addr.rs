use ipv4_net::IpAddress;

#[test]
fn init() {
    assert_eq!(IpAddress::from(0), IpAddress::from([0, 0, 0, 0]));
    assert_eq!(IpAddress::from(10), IpAddress::from([0, 0, 0, 10]));
    assert_eq!(IpAddress::from(16843009), IpAddress::from([1, 1, 1, 1]));
    assert_eq!(
        IpAddress::from(684196753),
        IpAddress::from([40, 200, 3, 145])
    );
    assert_eq!(IpAddress::from(65535), IpAddress::from([0, 0, 255, 255]));
    assert_eq!(
        IpAddress::from(u32::MAX),
        IpAddress::from([255, 255, 255, 255])
    );
}

#[test]
fn octets() {
    assert_eq!([0, 0, 0, 0], IpAddress::from(0).octets());
    assert_eq!([0, 0, 0, 10], IpAddress::from(10).octets());
    assert_eq!([1, 1, 1, 1], IpAddress::from(16843009).octets());
    assert_eq!([40, 200, 3, 145], IpAddress::from(684196753).octets());
    assert_eq!([0, 0, 255, 255], IpAddress::from(65535).octets());
    assert_eq!([255, 255, 255, 255], IpAddress::from(u32::MAX).octets());
}

#[test]
fn addr_display() {
    assert_eq!("1.1.1.1", IpAddress::from([1, 1, 1, 1]).to_string());
    assert_eq!("25.25.25.25", IpAddress::from([25, 25, 25, 25]).to_string());
    assert_eq!(
        "255.255.255.255",
        IpAddress::from([255, 255, 255, 255]).to_string()
    );
    assert_eq!("40.200.3.145", IpAddress::from(684196753).to_string());
    assert_eq!("0.0.255.255", IpAddress::from(65535).to_string());
}

#[test]
fn new_and_value_agree_with_from() {
    assert_eq!(IpAddress::new(684196753), IpAddress::from(684196753));
    assert_eq!(IpAddress::new(684196753).value(), 684196753);
    assert_eq!(IpAddress::from_octets([40, 200, 3, 145]).value(), 684196753);
    assert_eq!(IpAddress::from_octets([255, 255, 255, 255]).value(), u32::MAX);
}

#[test]
fn octets_round_trip() {
    for o in [[0u8, 0, 0, 0], [1, 2, 3, 4], [255, 0, 128, 7], [255, 255, 255, 255]] {
        assert_eq!(IpAddress::from_octets(o).octets(), o);
    }
    for v in [0u32, 1, 256, 65536, 16777216, 684196753, 3578789888, u32::MAX] {
        assert_eq!(IpAddress::from_octets(IpAddress::new(v).octets()).value(), v);
    }
}

#[test]
fn addresses_order_numerically() {
    assert!(IpAddress::new(1) < IpAddress::new(2));
    assert!(IpAddress::from([1, 0, 0, 0]) > IpAddress::from([0, 255, 255, 255]));
}

#[test]
fn render_digit_widths() {
    assert_eq!("0.9.10.99", IpAddress::from([0, 9, 10, 99]).to_string());
    assert_eq!("100.199.200.0", IpAddress::from([100, 199, 200, 0]).to_string());
}
