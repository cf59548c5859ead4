use subnet::addrs_data::AddrsData;
use subnet::ip_to_binary;
use subnet::ipv4::Ipv4Address;
use subnet::SubnetError;

#[test]
fn test_buil_addrs_data() {
    let addrs = Ipv4Address::new(192, 168, 20, 0);
    let bin_ip: String = ip_to_binary(addrs);
    let hosts: u32 = 120;
    let host_bits: u32 = 7;

    let addrs_data = AddrsData::new(addrs, bin_ip.clone(), host_bits);
    let result = AddrsData::build(addrs, bin_ip.clone(), hosts);

    assert!(result.is_ok());

    let new_addrs_data = result.unwrap();

    assert_eq!(addrs_data.addrs(), new_addrs_data.addrs());
    assert_eq!(addrs_data.bin_ip(), new_addrs_data.bin_ip());
    assert_eq!(addrs_data.host_bits(), new_addrs_data.host_bits());
}

#[test]
fn test_get_broadcast() {
    let addrs = Ipv4Address::new(192, 168, 20, 0);
    let bin_ip: String = ip_to_binary(addrs);
    let host_bits: u32 = 7;

    let addrs_data = AddrsData::new(addrs, bin_ip.clone(), host_bits);

    let result = addrs_data.get_broadcast();

    assert!(result.is_ok());
    assert_eq!(result.unwrap(), Ipv4Address::new(192, 168, 20, 127));
}

#[test]
fn test_get_mask() {
    let addrs = Ipv4Address::new(192, 168, 20, 0);
    let bin_ip: String = ip_to_binary(addrs);
    let host_bits: u32 = 7;

    let addrs_data = AddrsData::new(addrs, bin_ip.clone(), host_bits);

    let result = addrs_data.get_mask();

    assert!(result.is_ok());
    assert_eq!(result.unwrap(), 25);
}

#[test]
fn test_get_useful_range() {
    let addrs = Ipv4Address::new(192, 168, 0, 0);
    let bin_ip: String = ip_to_binary(addrs);
    let host_bits: u32 = 3;

    let addrs_data = AddrsData::new(addrs, bin_ip.clone(), host_bits);

    let result = addrs_data.get_useful_range();

    let good_range = vec![
        Ipv4Address::new(192, 168, 0, 1),
        Ipv4Address::new(192, 168, 0, 2),
        Ipv4Address::new(192, 168, 0, 3),
        Ipv4Address::new(192, 168, 0, 4),
        Ipv4Address::new(192, 168, 0, 5),
        Ipv4Address::new(192, 168, 0, 6),
    ];

    assert!(result.is_ok());
    assert_eq!(result.unwrap(), good_range);
}

#[test]
fn test_build_minimal_host_bits() {
    let addrs = Ipv4Address::new(10, 0, 0, 0);
    let bin_ip: String = ip_to_binary(addrs);

    // 2^2 - 2 = 2 usable addresses is the smallest subnet for 1 or 2 hosts
    assert_eq!(AddrsData::build(addrs, bin_ip.clone(), 1).unwrap().host_bits(), 2);
    assert_eq!(AddrsData::build(addrs, bin_ip.clone(), 2).unwrap().host_bits(), 2);
    assert_eq!(AddrsData::build(addrs, bin_ip.clone(), 3).unwrap().host_bits(), 3);
    assert_eq!(AddrsData::build(addrs, bin_ip.clone(), 6).unwrap().host_bits(), 3);
    // 2^7 - 2 = 126 hosts still fit 7 bits; 127 hosts no longer do
    assert_eq!(AddrsData::build(addrs, bin_ip.clone(), 126).unwrap().host_bits(), 7);
    assert_eq!(AddrsData::build(addrs, bin_ip.clone(), 127).unwrap().host_bits(), 8);
    assert_eq!(AddrsData::build(addrs, bin_ip.clone(), 254).unwrap().host_bits(), 8);
    assert_eq!(AddrsData::build(addrs, bin_ip.clone(), 255).unwrap().host_bits(), 9);
}

#[test]
fn test_build_zero_hosts() {
    let addrs = Ipv4Address::new(10, 0, 0, 0);
    let bin_ip: String = ip_to_binary(addrs);

    let result = AddrsData::build(addrs, bin_ip, 0);

    assert!(result.is_err());
    match result.unwrap_err() {
        SubnetError::InvalidNumberHosts(msg) => {
            assert_eq!(msg, "Number of hosts must be greater than 0");
        }
        SubnetError::ParserError(_) => panic!("wrong error kind"),
    }
}

#[test]
fn test_build_capacity_exceeded() {
    let addrs = Ipv4Address::new(10, 0, 0, 0);
    let bin_ip: String = ip_to_binary(addrs);

    let result = AddrsData::build(addrs, bin_ip, u32::MAX);

    assert!(result.is_err());
    match result.unwrap_err() {
        SubnetError::InvalidNumberHosts(msg) => {
            assert_eq!(msg, "Number of hosts exceeds address-space capacity");
        }
        SubnetError::ParserError(_) => panic!("wrong error kind"),
    }
}

#[test]
fn test_get_broadcast_wide_host_portion() {
    // nine host bits do not fit the final octet
    let addrs = Ipv4Address::new(10, 0, 0, 0);
    let bin_ip: String = ip_to_binary(addrs);

    let addrs_data = AddrsData::new(addrs, bin_ip, 9);

    let result = addrs_data.get_broadcast();

    assert!(result.is_err());
    assert!(matches!(result.unwrap_err(), SubnetError::ParserError(_)));
}

#[test]
fn test_get_useful_range_empty() {
    // the base address's final octet lies beyond the broadcast octet
    let addrs = Ipv4Address::new(192, 168, 20, 200);
    let bin_ip: String = ip_to_binary(addrs);

    let addrs_data = AddrsData::new(addrs, bin_ip, 3);

    assert_eq!(addrs_data.get_broadcast().unwrap(), Ipv4Address::new(192, 168, 20, 7));
    assert_eq!(addrs_data.get_useful_range().unwrap(), Vec::<Ipv4Address>::new());
}
