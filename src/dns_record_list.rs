use vstd::prelude::*;

use crate::godaddy;
use crate::record_type::{RecordSpecificationV6Adapter, RecordType};
use crate::ydns;

verus! {

/// The configured services, each with its domains.
pub type DnsRecordList = Vec<ServiceSpecifications>;

/// The domains configured at one DNS provider.
#[derive(Debug)]
pub enum ServiceSpecifications {
    GoDaddy(Vec<DomainSpecifications<godaddy::RecordSpecification, godaddy::RecordSpecification>>),
    YDns(Vec<DomainSpecifications<ydns::SpecificationV4, ydns::SpecificationV6>>),
}

/// A provider identity: which service a configuration entry or a credential
/// belongs to.
#[derive(PartialEq, Eq, Structural, Clone, Copy, Debug, Hash)]
pub enum Service {
    GoDaddy,
    YDns,
}

/// A domain and the hosts below it that are kept up to date.
#[derive(Debug)]
pub struct DomainSpecifications<RecordSpecificationV4, RecordSpecificationV6> {
    pub domain_name: String,
    pub specifications: Vec<HostSpecifications<RecordSpecificationV4, RecordSpecificationV6>>,
}

/// A host (subdomain) with the record of each family it wants.
#[derive(Debug)]
pub struct HostSpecifications<RecordSpecificationV4, RecordSpecificationV6> {
    pub host_name: String,
    pub ipv4: Option<RecordSpecificationV4>,
    pub ipv6: Option<RecordSpecificationV6Adapter<RecordSpecificationV6>>,
}

/// Whether a host asks for a record of type `t`.
pub open spec fn host_declares<V4, V6>(h: HostSpecifications<V4, V6>, t: RecordType) -> bool {
    match t {
        RecordType::A => h.ipv4 is Some,
        RecordType::AAAA => h.ipv6 is Some,
    }
}

/// Whether some host of some domain asks for a record of type `t`.
pub open spec fn domains_declare<V4, V6>(
    ds: Seq<DomainSpecifications<V4, V6>>,
    t: RecordType,
) -> bool {
    exists|i: int, j: int|
        0 <= i < ds.len() && 0 <= j < ds[i].specifications@.len() && #[trigger] host_declares(
            ds[i].specifications@[j],
            t,
        )
}

/// Whether a service asks for a record of type `t` anywhere.
pub open spec fn service_declares(s: ServiceSpecifications, t: RecordType) -> bool {
    match s {
        ServiceSpecifications::GoDaddy(ds) => domains_declare(ds@, t),
        ServiceSpecifications::YDns(ds) => domains_declare(ds@, t),
    }
}

/// Whether any service of the list asks for a record of type `t`.
pub open spec fn list_declares(list: Seq<ServiceSpecifications>, t: RecordType) -> bool {
    exists|i: int| 0 <= i < list.len() && #[trigger] service_declares(list[i], t)
}

/// The record types that a configuration uses anywhere.
pub open spec fn record_types_of(list: Seq<ServiceSpecifications>) -> Set<RecordType> {
    Set::new(|t: RecordType| list_declares(list, t))
}

pub open spec fn service_of(s: ServiceSpecifications) -> Service {
    match s {
        ServiceSpecifications::GoDaddy(_) => Service::GoDaddy,
        ServiceSpecifications::YDns(_) => Service::YDns,
    }
}

impl ServiceSpecifications {
    /// The provider identity of this entry.
    pub fn service(&self) -> (r: Service)
        ensures
            r == service_of(*self),
    {
        match self {
            ServiceSpecifications::GoDaddy(_) => Service::GoDaddy,
            ServiceSpecifications::YDns(_) => Service::YDns,
        }
    }
}

} // verus!
