use std::str::FromStr;

use fctools::ext::link_local::{LinkLocalSubnet as EarlierSubnet, LinkLocalSubnetError as EarlierError};
use fctools::extension::link_local::{LinkLocalSubnet, LinkLocalSubnetError};
use fctools::net::{Ipv4Addr, Ipv4Inet};

fn inet(text: &str) -> Ipv4Inet {
    let parsed = cidr::Ipv4Inet::from_str(text).unwrap();
    let [a, b, c, d] = parsed.address().octets();
    Ipv4Inet::new(Ipv4Addr::new(a, b, c, d), parsed.network_length()).unwrap()
}

#[test]
fn subnet_new_fails_with_wide_network_length() {
    for network_length in 0..=16 {
        assert_eq!(
            LinkLocalSubnet::new(0, network_length),
            Err(LinkLocalSubnetError::NetworkLengthDoesNotFit)
        );
    }
}

#[test]
fn subnet_new_fails_with_thin_network_length() {
    for network_length in 31..=255 {
        assert_eq!(
            LinkLocalSubnet::new(0, network_length),
            Err(LinkLocalSubnetError::NetworkLengthDoesNotFit)
        );
    }
}

#[test]
fn subnet_new_fails_with_not_fitting_subnet_index() {
    for network_length in 17..=30 {
        let min_forbidden_subnet_index = 65536 / (2_u32.pow(32 - network_length as u32));
        assert_eq!(
            LinkLocalSubnet::new(min_forbidden_subnet_index as u16, network_length),
            Err(LinkLocalSubnetError::SubnetIndexDoesNotFit)
        );
    }
}

#[test]
fn subnet_new_succeeds_with_correct_params() {
    for network_length in 17..=30 {
        LinkLocalSubnet::new(0, network_length).unwrap();
    }
}

#[test]
fn subnet_from_inet_fails_with_non_link_local_inet() {
    let inet = inet("168.253.1.1/30");
    assert_eq!(
        LinkLocalSubnet::from_inet(&inet),
        Err(LinkLocalSubnetError::NotLinkLocal)
    );
}

#[test]
fn subnet_from_inet_fails_with_incorrect_network_length() {
    for inet in ["169.254.1.1/31", "169.254.1.1/16"].into_iter().map(inet) {
        assert_eq!(
            LinkLocalSubnet::from_inet(&inet),
            Err(LinkLocalSubnetError::NetworkLengthDoesNotFit)
        );
    }
}

#[test]
fn subnet_from_inet_succeeds_with_correct_params() {
    for a in 1..256 {
        for b in 1..256 {
            let inet = inet(format!("169.254.{a}.{b}/30").as_str());
            LinkLocalSubnet::from_inet(&inet).unwrap();
        }
    }
}

#[test]
fn ip_amounts_are_reported_correctly() {
    for network_length in 17_u8..=30_u8 {
        let ip_amount = 2_u32.pow(32 - network_length as u32);
        let subnet = LinkLocalSubnet::new(0, network_length).unwrap();
        assert_eq!(subnet.ip_amount(), ip_amount);
        assert_eq!(subnet.host_ip_amount(), ip_amount - 2);
    }
}

#[test]
fn get_ip_reports_correctly() {
    for network_length in 17_u8..=30_u8 {
        let subnet = LinkLocalSubnet::new(0, network_length).unwrap();
        for i in 0..subnet.ip_amount() {
            let ip = subnet.get_ip(i).unwrap();
            assert_eq!(ip.address().octets()[0], 169);
            assert_eq!(ip.address().octets()[1], 254);
            assert_eq!(ip.address().octets()[2], (i / 256) as u8);
            assert_eq!(ip.address().octets()[3], (i % 256) as u8);
        }
    }
}

#[test]
fn get_host_ip_reports_correctly() {
    for network_length in 17_u8..=30_u8 {
        let subnet = LinkLocalSubnet::new(0, network_length).unwrap();
        for i in 0..subnet.host_ip_amount() {
            let ip = subnet.get_host_ip(i).unwrap();
            assert_eq!(ip.address().octets()[0], 169);
            assert_eq!(ip.address().octets()[1], 254);
            assert_eq!(ip.address().octets()[2], ((i + 1) / 256) as u8);
            assert_eq!(ip.address().octets()[3], ((i + 1) % 256) as u8);
        }
    }
}

#[test]
fn subnet_addresses_follow_the_subnet_index() {
    let subnet = LinkLocalSubnet::new(3, 30).unwrap();
    let ip = subnet.get_ip(1).unwrap();
    assert_eq!(ip.address().octets(), [169, 254, 0, 13]);
    assert_eq!(ip.network_length(), 30);
    assert_eq!(subnet.get_ip(4), Err(LinkLocalSubnetError::IpIndexDoesNotFit));
    assert_eq!(subnet.get_host_ip(2), Err(LinkLocalSubnetError::IpIndexDoesNotFit));
    assert_eq!(subnet.get_host_ip(0).unwrap().address().octets(), [169, 254, 0, 13]);
    let last = LinkLocalSubnet::new(255, 24).unwrap();
    assert_eq!(last.get_ip(255).unwrap().address().octets(), [169, 254, 255, 255]);
    let ips = subnet.get_ips().unwrap();
    assert_eq!(
        ips.iter().map(|ip| ip.address().octets()[3]).collect::<Vec<_>>(),
        vec![12, 13, 14, 15]
    );
    let hosts = subnet.get_host_ips().unwrap();
    assert_eq!(hosts.iter().map(|ip| ip.address().octets()[3]).collect::<Vec<_>>(), vec![13, 14]);
    assert_eq!(subnet.subnet_index(), 3);
    assert_eq!(subnet.network_length(), 30);
}

#[test]
fn subnet_from_inet_derives_its_index() {
    // (256 * 1 + 0) / 2^(32 - 24) = 1
    let subnet = LinkLocalSubnet::from_inet(&inet("169.254.1.0/24")).unwrap();
    assert_eq!(subnet.subnet_index(), 1);
    assert_eq!(subnet.network_length(), 24);
    // (256 * 1 + 1) / 2^(32 - 30) = 64, the subnet 169.254.1.0/30 that holds the address
    let subnet = LinkLocalSubnet::from_inet(&inet("169.254.1.1/30")).unwrap();
    assert_eq!(subnet.subnet_index(), 64);
    assert_eq!(subnet.get_ip(1).unwrap().address(), Ipv4Addr::new(169, 254, 1, 1));
    // (256 * 255 + 200) / 2^(32 - 17) = 1
    let subnet = LinkLocalSubnet::from_inet(&inet("169.254.255.200/17")).unwrap();
    assert_eq!(subnet.subnet_index(), 1);
    assert_eq!(subnet.get_ip(0).unwrap().address(), Ipv4Addr::new(169, 254, 128, 0));
}

#[test]
fn subnet_from_inet_of_its_own_addresses_gives_it_back() {
    for network_length in [17_u8, 24, 29, 30] {
        let subnet = LinkLocalSubnet::new(1, network_length).unwrap();
        for ip in subnet.get_ips().unwrap() {
            assert_eq!(LinkLocalSubnet::from_inet(&ip), Ok(subnet));
        }
    }
}

#[test]
fn inet_rejects_overlong_network_length() {
    assert!(Ipv4Inet::new(Ipv4Addr::new(10, 0, 0, 1), 33).is_err());
    let inet = Ipv4Inet::new(Ipv4Addr::new(10, 0, 0, 1), 32).unwrap();
    assert_eq!(inet.address(), Ipv4Addr::new(10, 0, 0, 1));
    assert_eq!(inet.network_length(), 32);
    assert!(Ipv4Addr::new(169, 254, 3, 3).is_link_local());
    assert!(!Ipv4Addr::new(169, 253, 3, 3).is_link_local());
}

#[test]
fn t() {
    let subnet = EarlierSubnet::new(1, 31).unwrap();
    println!("{:?}", subnet.get_ip(3).unwrap().address());
}

#[test]
fn earlier_subnet_arithmetic_agrees() {
    assert_eq!(EarlierSubnet::new(0, 32).err(), Some(EarlierError::NetworkLengthDoesNotFit));
    assert_eq!(EarlierSubnet::new(0, 16).err(), Some(EarlierError::NetworkLengthDoesNotFit));
    assert_eq!(EarlierSubnet::new(16384, 30).err(), Some(EarlierError::SubnetIndexDoesNotFit));
    assert_eq!(EarlierSubnet::new(16384, 31).err(), Some(EarlierError::SubnetIndexDoesNotFit));
    let thin = EarlierSubnet::new(2, 31).unwrap();
    assert_eq!(thin.ip_amount(), 4);
    assert_eq!(thin.host_ip_amount(), 2);
    let first = thin.get_ip(0).unwrap();
    assert_eq!((first.address().octets(), first.network_length()), ([169, 254, 0, 8], 31));
    assert_eq!(thin.get_ip(4).err(), Some(EarlierError::IpIndexDoesNotFit));
    let subnet = EarlierSubnet::new(2, 29).unwrap();
    assert_eq!(subnet.ip_amount(), 8);
    assert_eq!(subnet.host_ip_amount(), 6);
    assert_eq!(subnet.get_ip(0).unwrap().address().octets(), [169, 254, 0, 16]);
    assert_eq!(subnet.get_ip(8).err(), Some(EarlierError::IpIndexDoesNotFit));
    assert_eq!(subnet.get_ips().unwrap().len(), 8);
    assert_eq!(EarlierSubnet::of_inet(&inet("10.0.0.1/24")).err(), Some(EarlierError::NotLinkLocal));
    assert_eq!(EarlierSubnet::of_inet(&inet("169.254.0.1/16")).err(), Some(EarlierError::NetworkLengthDoesNotFit));
    let of = EarlierSubnet::of_inet(&inet("169.254.2.0/24")).unwrap();
    assert_eq!((of.subnet_index(), of.network_length()), (2, 24));
    let of = EarlierSubnet::of_inet(&inet("169.254.1.1/31")).unwrap();
    assert_eq!((of.subnet_index(), of.network_length()), (64, 31));
    let of = EarlierSubnet::of_inet(&inet("169.254.0.7/31")).unwrap();
    assert_eq!(of.subnet_index(), 1);
    assert_eq!(of.get_ip(3).unwrap().address().octets(), [169, 254, 0, 7]);
}

#[test]
fn subnets_of_one_length_share_no_address() {
    let first = LinkLocalSubnet::new(0, 30).unwrap();
    let second = LinkLocalSubnet::new(1, 30).unwrap();
    let mut seen = std::collections::HashSet::new();
    for subnet in [&first, &second] {
        for ip in subnet.get_ips().unwrap() {
            assert!(ip.address().is_link_local());
            assert!(seen.insert(ip.address()));
        }
    }
    assert_eq!(seen.len(), 8);
}
