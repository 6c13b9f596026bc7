use dyndns_rs::authentication_data::map_authentication_data;
use dyndns_rs::gate::{collect_record_types, generate_should_be_processed, remove_unchanged, ShouldBeProcessed};
use dyndns_rs::godaddy::{self, ApiUrl, PredefinedUrl};
use dyndns_rs::reconcile::{handle_domains_by_service, ips_to_persist, plan_updates};
use dyndns_rs::update_handler::{UpdateHandler, UpdateRequest};
use dyndns_rs::ydns;
use dyndns_rs::{
    AuthenticationData, CustomInterfaceId, DomainSpecifications, Error, HostSpecifications, IPs,
    IpAddress, Ipv4Address, Ipv6Address, RecordSpecificationV6Adapter, RecordType, Service,
    ServiceSpecifications,
};

const V4: Ipv4Address = Ipv4Address { bits: 0x01020304 };
const V6: Ipv6Address = Ipv6Address { bits: 0x2001_0db8_0000_0000_0000_0000_0000_0001 };

fn gd_auth() -> AuthenticationData {
    AuthenticationData::GoDaddy(godaddy::AuthenticationData {
        api_key: "key".to_string(),
        api_secret: "secret".to_string(),
        api_url: ApiUrl::PredefinedUrl(PredefinedUrl::PRODUCTION),
    })
}

fn yd_auth(user: &str) -> AuthenticationData {
    AuthenticationData::YDns(ydns::AuthenticationData {
        username: user.to_string(),
        secret: "pw".to_string(),
    })
}

fn gd_v6(ttl: u32) -> RecordSpecificationV6Adapter<godaddy::RecordSpecification> {
    RecordSpecificationV6Adapter {
        record_specification: godaddy::RecordSpecification { ttl },
        custom_interface_id: None,
    }
}

fn example_configuration() -> Vec<ServiceSpecifications> {
    vec![ServiceSpecifications::GoDaddy(vec![DomainSpecifications {
        domain_name: "example.com".to_string(),
        specifications: vec![
            HostSpecifications {
                host_name: "@".to_string(),
                ipv4: Some(godaddy::RecordSpecification { ttl: 600 }),
                ipv6: None,
            },
            HostSpecifications {
                host_name: "www".to_string(),
                ipv4: Some(godaddy::RecordSpecification { ttl: 600 }),
                ipv6: Some(gd_v6(600)),
            },
        ],
    }])]
}

fn ydns_configuration() -> Vec<ServiceSpecifications> {
    vec![ServiceSpecifications::YDns(vec![DomainSpecifications {
        domain_name: "example.org".to_string(),
        specifications: vec![HostSpecifications {
            host_name: "@".to_string(),
            ipv4: Some(ydns::RecordSpecification {}),
            ipv6: None,
        }],
    }])]
}

#[test]
fn end_to_end_only_the_changed_family_is_pushed() {
    let list = example_configuration();
    let mut records = collect_record_types(&list);
    assert!(!records.is_empty());
    let should = generate_should_be_processed(&records);
    assert_eq!(should, ShouldBeProcessed::Always);
    let resolved = IPs { ipv4: Some(V4), ipv6: Some(V6) };
    let persisted = Some(IPs { ipv4: Some(V4), ipv6: None });
    remove_unchanged(&mut records, &persisted, &resolved);
    assert_eq!(records.len(), 1);
    let should = generate_should_be_processed(&records);
    assert!(!should.call(RecordType::A));
    assert!(should.call(RecordType::AAAA));

    let credentials = map_authentication_data(vec![gd_auth()]);
    let plan = plan_updates(&list, &credentials, &should, resolved.ipv4, resolved.ipv6);
    assert_eq!(plan.failure, None);
    assert_eq!(plan.requests.len(), 1);
    match &plan.requests[0] {
        UpdateRequest::GoDaddy(r) => {
            assert_eq!(r.url, "https://api.godaddy.com//v1/domains/example.com/records/AAAA/www");
            assert_eq!(r.record.name, "www");
            assert_eq!(r.record.type_, RecordType::AAAA);
            assert_eq!(r.record.ttl, 600);
            assert_eq!(r.record.data, godaddy::DnsData::IpAddress(IpAddress::V6(V6)));
        }
        _ => panic!("expected a GoDaddy request"),
    }
    // what is persisted after the run
    assert_eq!(resolved, IPs { ipv4: Some(V4), ipv6: Some(V6) });
}

#[test]
fn second_run_without_address_change_sends_nothing() {
    let list = example_configuration();
    let resolved = IPs { ipv4: Some(V4), ipv6: Some(V6) };
    // first run, with no persisted state: both families are pushed
    let mut records = collect_record_types(&list);
    remove_unchanged(&mut records, &None, &resolved);
    let should = generate_should_be_processed(&records);
    let credentials = map_authentication_data(vec![gd_auth()]);
    let plan = plan_updates(&list, &credentials, &should, resolved.ipv4, resolved.ipv6);
    assert_eq!(plan.requests.len(), 3);
    assert_eq!(plan.failure, None);
    // second run, with the state the first one persisted
    let mut records = collect_record_types(&list);
    remove_unchanged(&mut records, &Some(resolved), &resolved);
    assert!(records.is_empty());
    let should = generate_should_be_processed(&records);
    let plan = plan_updates(&list, &credentials, &should, resolved.ipv4, resolved.ipv6);
    assert_eq!(plan.requests.len(), 0);
}

#[test]
fn configuration_without_records_needs_nothing() {
    let list = vec![ServiceSpecifications::GoDaddy(vec![DomainSpecifications {
        domain_name: "example.com".to_string(),
        specifications: vec![HostSpecifications { host_name: "@".to_string(), ipv4: None, ipv6: None }],
    }])];
    let records = collect_record_types(&list);
    assert!(records.is_empty());
    let should = generate_should_be_processed(&records);
    assert!(!should.call(RecordType::A) && !should.call(RecordType::AAAA));
    let credentials = map_authentication_data(vec![gd_auth()]);
    let plan = plan_updates(&list, &credentials, &should, None, None);
    assert_eq!(plan.requests.len(), 0);
    assert_eq!(plan.failure, None);
}

#[test]
fn missing_credential_stops_before_any_call() {
    let mut list = example_configuration();
    list.extend(ydns_configuration());
    let credentials = map_authentication_data(vec![gd_auth()]);
    let plan = plan_updates(&list, &credentials, &ShouldBeProcessed::Always, Some(V4), Some(V6));
    assert_eq!(plan.requests.len(), 0);
    assert_eq!(plan.failure, Some(Error::AuthenticationError(Service::YDns)));
}

#[test]
fn services_are_planned_in_order() {
    let mut list = ydns_configuration();
    list.extend(example_configuration());
    let credentials = map_authentication_data(vec![yd_auth("first"), gd_auth(), yd_auth("last")]);
    assert_eq!(credentials.ydns.as_ref().unwrap().username, "last");
    let plan = plan_updates(&list, &credentials, &ShouldBeProcessed::Only(RecordType::A), Some(V4), None);
    assert_eq!(plan.failure, None);
    assert_eq!(plan.requests.len(), 3);
    match &plan.requests[0] {
        UpdateRequest::YDns(r) => {
            assert_eq!(r.host, "example.org");
            assert_eq!(r.user, "last");
            assert_eq!(r.ip, IpAddress::V4(V4));
        }
        _ => panic!("expected a YDns request first"),
    }
    match &plan.requests[2] {
        UpdateRequest::GoDaddy(r) => {
            assert_eq!(r.url, "https://api.godaddy.com//v1/domains/example.com/records/A/www")
        }
        _ => panic!("expected a GoDaddy request last"),
    }
}

#[test]
fn refusal_keeps_earlier_calls_and_stops_later_ones() {
    let list = vec![ServiceSpecifications::GoDaddy(vec![DomainSpecifications {
        domain_name: "example.com".to_string(),
        specifications: vec![
            HostSpecifications { host_name: "a".to_string(), ipv4: None, ipv6: Some(gd_v6(60)) },
            HostSpecifications {
                host_name: "b".to_string(),
                ipv4: None,
                ipv6: Some(RecordSpecificationV6Adapter {
                    record_specification: godaddy::RecordSpecification { ttl: 60 },
                    custom_interface_id: CustomInterfaceId::new(56, Ipv6Address { bits: 1 }),
                }),
            },
            HostSpecifications { host_name: "c".to_string(), ipv4: None, ipv6: Some(gd_v6(60)) },
        ],
    }])];
    let credentials = map_authentication_data(vec![gd_auth()]);
    let plan = plan_updates(&list, &credentials, &ShouldBeProcessed::Always, Some(V4), Some(V6));
    assert_eq!(plan.requests.len(), 1);
    assert_eq!(plan.failure, Some(Error::GoDaddyError(godaddy::Error::NotImplemented)));
}

#[test]
fn handler_dispatch_appends_to_requests() {
    let auth = ydns::AuthenticationData { username: "u".to_string(), secret: "s".to_string() };
    let handler = ydns::Handler::new(&auth).ok().unwrap();
    let domains = vec![DomainSpecifications {
        domain_name: "example.net".to_string(),
        specifications: vec![
            HostSpecifications {
                host_name: "x".to_string(),
                ipv4: Some(ydns::RecordSpecification {}),
                ipv6: Some(RecordSpecificationV6Adapter {
                    record_specification: ydns::RecordSpecification {},
                    custom_interface_id: None,
                }),
            },
        ],
    }];
    let mut requests = Vec::new();
    let r = handle_domains_by_service(&handler, &domains, &ShouldBeProcessed::Always, Some(V4), Some(V6), &mut requests);
    assert_eq!(r, Ok(()));
    assert_eq!(requests.len(), 2);
    match &requests[1] {
        UpdateRequest::YDns(q) => {
            assert_eq!(q.host, "x.example.net");
            assert_eq!(q.ip, IpAddress::V6(V6));
        }
        _ => panic!("expected a YDns request"),
    }
}

#[test]
fn invalid_url_stops_before_any_call() {
    let list = example_configuration();
    let credentials = map_authentication_data(vec![AuthenticationData::GoDaddy(godaddy::AuthenticationData {
        api_key: "k".to_string(),
        api_secret: "s".to_string(),
        api_url: ApiUrl::CustomUrl("::".to_string()),
    })]);
    let plan = plan_updates(&list, &credentials, &ShouldBeProcessed::Always, Some(V4), Some(V6));
    assert_eq!(plan.requests.len(), 0);
    assert_eq!(plan.failure, Some(Error::GoDaddyError(godaddy::Error::InvalidUrl)));
    assert_eq!(gd_auth().service(), Service::GoDaddy);
}

#[test]
fn missing_credential_is_reported_before_unusable_ones() {
    let mut list = example_configuration();
    list.extend(ydns_configuration());
    let credentials = map_authentication_data(vec![AuthenticationData::GoDaddy(godaddy::AuthenticationData {
        api_key: "k".to_string(),
        api_secret: "s".to_string(),
        api_url: ApiUrl::CustomUrl("::".to_string()),
    })]);
    let plan = plan_updates(&list, &credentials, &ShouldBeProcessed::Always, Some(V4), Some(V6));
    assert_eq!(plan.requests.len(), 0);
    assert_eq!(plan.failure, Some(Error::AuthenticationError(Service::YDns)));
}

#[test]
fn persisted_state_follows_the_changed_families() {
    let list = example_configuration();
    let resolved = IPs { ipv4: Some(V4), ipv6: Some(V6) };
    // nothing changed: the persisted state stays as it was
    assert_eq!(ips_to_persist(&list, &Some(resolved), &resolved), Some(resolved));
    // the IPv6 address is new: the resolved pair is saved, IPv4 unchanged
    let persisted = Some(IPs { ipv4: Some(V4), ipv6: None });
    assert_eq!(ips_to_persist(&list, &persisted, &resolved), Some(resolved));
    // families the configuration does not use are saved as absent
    let v4_only = ydns_configuration();
    assert_eq!(
        ips_to_persist(&v4_only, &None, &resolved),
        Some(IPs { ipv4: Some(V4), ipv6: None })
    );
    // no family used: nothing to save
    assert_eq!(ips_to_persist(&Vec::new(), &None, &resolved), None);
}
