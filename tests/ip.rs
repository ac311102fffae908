use neo_meting::netease::ip::{IP_RANGE_END, IP_RANGE_START};
use neo_meting::netease::IpStr;

#[test]
fn test_from_u32() {
    let ip = IpStr::from(1884815360);
    assert_eq!(ip.0, "112.88.0.0");
}

#[test]
fn from_u32_orders_octets_most_significant_first() {
    assert_eq!(IpStr::from_u32(0x01020304).0, "1.2.3.4");
    assert_eq!(IpStr::from_u32(0).0, "0.0.0.0");
    assert_eq!(IpStr::from_u32(u32::MAX).0, "255.255.255.255");
}

#[test]
fn random_ip_stays_in_range() {
    let lo = IpStr::from_u32(IP_RANGE_START).0;
    assert_eq!(lo, "112.88.0.0");
    for _ in 0..20 {
        let ip = IpStr::random_chinese_ip();
        let parts: Vec<u32> = ip.as_str().split('.').map(|p| p.parse().unwrap()).collect();
        assert_eq!(parts.len(), 4);
        let value = (parts[0] << 24) | (parts[1] << 16) | (parts[2] << 8) | parts[3];
        assert!(IP_RANGE_START <= value && value < IP_RANGE_END);
    }
}
