//! Dynamic DNS reconciliation: decides which address families need work,
//! which provider updates a run sends, and what state it keeps afterwards.

pub mod authentication_data;
pub mod dns_record_list;
pub mod error;
pub mod gate;
pub mod godaddy;
pub mod ips;
pub mod reconcile;
pub mod record_type;
pub mod retry_handler;
pub mod update_handler;
pub mod ydns;

pub use authentication_data::{AuthenticationData, AuthenticationDataList, ServiceToAuthData};
pub use dns_record_list::{
    DnsRecordList, DomainSpecifications, HostSpecifications, Service, ServiceSpecifications,
};
pub use error::Error;
pub use ips::IPs;
pub use record_type::{
    CustomInterfaceId, IpAddress, Ipv4Address, Ipv6Address, RecordSpecificationV6Adapter,
    RecordType,
};
pub use update_handler::UpdateHandler;
