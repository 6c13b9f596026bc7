use vstd::prelude::*;

use crate::error::Error;
use crate::godaddy;
use crate::record_type::{IpAddress, Ipv4Address, Ipv6Address, RecordSpecificationV6Adapter, RecordType};
use crate::ydns;

verus! {

/// One provider call: the update that a handler asks to be sent.
#[derive(Debug)]
pub enum UpdateRequest {
    GoDaddy(godaddy::Request),
    YDns(ydns::Request),
}

pub enum UpdateRequestView {
    GoDaddy(godaddy::RequestView),
    YDns(ydns::RequestView),
}

impl View for UpdateRequest {
    type V = UpdateRequestView;

    open spec fn view(&self) -> UpdateRequestView {
        match self {
            UpdateRequest::GoDaddy(r) => UpdateRequestView::GoDaddy(r@),
            UpdateRequest::YDns(r) => UpdateRequestView::YDns(r@),
        }
    }
}

/// The family of the record a request updates.
pub open spec fn request_family(v: UpdateRequestView) -> RecordType {
    match v {
        UpdateRequestView::GoDaddy(r) => r.record.type_,
        UpdateRequestView::YDns(r) => match r.ip {
            IpAddress::V4(_) => RecordType::A,
            IpAddress::V6(_) => RecordType::AAAA,
        },
    }
}

pub open spec fn result_view(r: Result<UpdateRequest, Error>) -> Result<UpdateRequestView, Error> {
    match r {
        Ok(q) => Ok(q@),
        Err(e) => Err(e),
    }
}

/// A DNS provider: built from its credential, it turns a record specification,
/// a domain, a host and an address into the update to send.
pub trait UpdateHandler<AuthenticationData, RecordSpecificationV4, RecordSpecificationV6>: Sized {
    /// The credential this handler was built from.
    spec fn authentication(&self) -> AuthenticationData;

    /// Whether the handler is consistent with its credential.
    spec fn wf(&self) -> bool;

    /// Whether a handler can be built from a credential.
    spec fn construction(auth: AuthenticationData) -> Result<(), Error>;

    /// The update of the IPv4 record of `host` in `domain`.
    spec fn ipv4_update(
        auth: AuthenticationData,
        specification: RecordSpecificationV4,
        domain: Seq<char>,
        host: Seq<char>,
        ip: Ipv4Address,
    ) -> Result<UpdateRequestView, Error>;

    /// The update of the IPv6 record of `host` in `domain`.
    spec fn ipv6_update(
        auth: AuthenticationData,
        specification: RecordSpecificationV6Adapter<RecordSpecificationV6>,
        domain: Seq<char>,
        host: Seq<char>,
        ip: Ipv6Address,
    ) -> Result<UpdateRequestView, Error>;

    fn new(auth_data: &AuthenticationData) -> (r: Result<Self, Error>)
        ensures
            r is Ok <==> Self::construction(*auth_data) is Ok,
            r matches Ok(h) ==> h.wf() && h.authentication() == *auth_data,
            r matches Err(e) ==> Self::construction(*auth_data) == Err::<(), Error>(e),
    ;

    fn update_ipv4_record(
        &self,
        specification: &RecordSpecificationV4,
        domain: &str,
        host: &str,
        ip: Ipv4Address,
    ) -> (r: Result<UpdateRequest, Error>)
        requires
            self.wf(),
        ensures
            result_view(r) == Self::ipv4_update(
                self.authentication(),
                *specification,
                domain@,
                host@,
                ip,
            ),
    ;

    fn update_ipv6_record(
        &self,
        specification: &RecordSpecificationV6Adapter<RecordSpecificationV6>,
        domain: &str,
        host: &str,
        ip: Ipv6Address,
    ) -> (r: Result<UpdateRequest, Error>)
        requires
            self.wf(),
        ensures
            result_view(r) == Self::ipv6_update(
                self.authentication(),
                *specification,
                domain@,
                host@,
                ip,
            ),
    ;
}

} // verus!
