use dyndns_rs::gate::{
    collect_record_types, collect_record_types_domain, generate_should_be_processed,
    remove_unchanged, RecordTypes, ShouldBeProcessed,
};
use dyndns_rs::godaddy;
use dyndns_rs::ydns;
use dyndns_rs::{
    DomainSpecifications, HostSpecifications, IPs, Ipv4Address, Ipv6Address,
    RecordSpecificationV6Adapter, RecordType, ServiceSpecifications,
};

fn godaddy_host(
    name: &str,
    v4: bool,
    v6: bool,
) -> HostSpecifications<godaddy::RecordSpecification, godaddy::RecordSpecification> {
    HostSpecifications {
        host_name: name.to_string(),
        ipv4: if v4 { Some(godaddy::RecordSpecification { ttl: 600 }) } else { None },
        ipv6: if v6 {
            Some(RecordSpecificationV6Adapter {
                record_specification: godaddy::RecordSpecification { ttl: 600 },
                custom_interface_id: None,
            })
        } else {
            None
        },
    }
}

fn ydns_host(
    name: &str,
    v4: bool,
    v6: bool,
) -> HostSpecifications<ydns::SpecificationV4, ydns::SpecificationV6> {
    HostSpecifications {
        host_name: name.to_string(),
        ipv4: if v4 { Some(ydns::RecordSpecification {}) } else { None },
        ipv6: if v6 {
            Some(RecordSpecificationV6Adapter {
                record_specification: ydns::RecordSpecification {},
                custom_interface_id: None,
            })
        } else {
            None
        },
    }
}

#[test]
fn empty_configuration_uses_no_family() {
    let list: Vec<ServiceSpecifications> = Vec::new();
    let records = collect_record_types(&list);
    assert!(records.is_empty());
    assert_eq!(generate_should_be_processed(&records), ShouldBeProcessed::Never);
}

#[test]
fn hosts_without_records_use_no_family() {
    let list = vec![
        ServiceSpecifications::GoDaddy(vec![DomainSpecifications {
            domain_name: "example.com".to_string(),
            specifications: vec![godaddy_host("@", false, false)],
        }]),
        ServiceSpecifications::YDns(vec![]),
    ];
    let records = collect_record_types(&list);
    assert_eq!(records.len(), 0);
    let should = generate_should_be_processed(&records);
    assert!(!should.call(RecordType::A));
    assert!(!should.call(RecordType::AAAA));
}

#[test]
fn families_are_collected_across_services() {
    let list = vec![
        ServiceSpecifications::GoDaddy(vec![DomainSpecifications {
            domain_name: "example.com".to_string(),
            specifications: vec![godaddy_host("@", true, false)],
        }]),
        ServiceSpecifications::YDns(vec![DomainSpecifications {
            domain_name: "example.org".to_string(),
            specifications: vec![ydns_host("a", false, false), ydns_host("b", false, true)],
        }]),
    ];
    let records = collect_record_types(&list);
    assert!(records.contains(RecordType::A));
    assert!(records.contains(RecordType::AAAA));
    assert_eq!(records.len(), 2);
    assert_eq!(generate_should_be_processed(&records), ShouldBeProcessed::Always);
}

#[test]
fn collecting_a_domain_adds_to_the_set() {
    let mut set = RecordTypes::new();
    set.insert(RecordType::AAAA);
    let domains = vec![DomainSpecifications {
        domain_name: "example.com".to_string(),
        specifications: vec![godaddy_host("www", true, false)],
    }];
    collect_record_types_domain(&mut set, &domains);
    assert!(set.contains(RecordType::A));
    assert!(set.contains(RecordType::AAAA));
}

#[test]
fn predicate_of_one_family_accepts_only_it() {
    let mut set = RecordTypes::new();
    set.insert(RecordType::AAAA);
    let should = generate_should_be_processed(&set);
    assert_eq!(should, ShouldBeProcessed::Only(RecordType::AAAA));
    assert!(should.call(RecordType::AAAA));
    assert!(!should.call(RecordType::A));

    let mut set = RecordTypes::new();
    set.insert(RecordType::A);
    let should = generate_should_be_processed(&set);
    assert!(should.call(RecordType::A));
    assert!(!should.call(RecordType::AAAA));
}

#[test]
fn predicate_of_both_families_accepts_both() {
    let mut set = RecordTypes::new();
    set.insert(RecordType::A);
    set.insert(RecordType::AAAA);
    set.insert(RecordType::A);
    assert_eq!(set.len(), 2);
    let should = generate_should_be_processed(&set);
    assert!(should.call(RecordType::A));
    assert!(should.call(RecordType::AAAA));
}

#[test]
fn remove_reports_membership() {
    let mut set = RecordTypes::new();
    set.insert(RecordType::A);
    assert!(set.remove(RecordType::A));
    assert!(!set.remove(RecordType::A));
    assert!(set.is_empty());
}

fn both() -> RecordTypes {
    let mut set = RecordTypes::new();
    set.insert(RecordType::A);
    set.insert(RecordType::AAAA);
    set
}

#[test]
fn equal_addresses_are_dropped() {
    let mut set = both();
    let persisted = Some(IPs {
        ipv4: Some(Ipv4Address { bits: 0x01020304 }),
        ipv6: Some(Ipv6Address { bits: 1 }),
    });
    let resolved = IPs {
        ipv4: Some(Ipv4Address { bits: 0x01020304 }),
        ipv6: Some(Ipv6Address { bits: 2 }),
    };
    remove_unchanged(&mut set, &persisted, &resolved);
    assert!(!set.contains(RecordType::A));
    assert!(set.contains(RecordType::AAAA));
    let should = generate_should_be_processed(&set);
    assert!(!should.call(RecordType::A));
}

#[test]
fn nothing_is_dropped_without_persisted_state() {
    let mut set = both();
    let resolved = IPs {
        ipv4: Some(Ipv4Address { bits: 7 }),
        ipv6: Some(Ipv6Address { bits: 7 }),
    };
    remove_unchanged(&mut set, &None, &resolved);
    assert_eq!(set.len(), 2);
}

#[test]
fn absent_persisted_address_counts_as_changed() {
    let mut set = both();
    let persisted = Some(IPs { ipv4: None, ipv6: None });
    let resolved = IPs { ipv4: None, ipv6: None };
    remove_unchanged(&mut set, &persisted, &resolved);
    assert_eq!(set.len(), 2);
}

#[test]
fn all_unchanged_leaves_nothing() {
    let mut set = both();
    let ips = IPs {
        ipv4: Some(Ipv4Address { bits: 9 }),
        ipv6: Some(Ipv6Address { bits: 9 }),
    };
    remove_unchanged(&mut set, &Some(ips), &ips);
    assert!(set.is_empty());
}
