use vstd::prelude::*;

use crate::error::Error;
use crate::record_type::{IpAddress, Ipv4Address, Ipv6Address, RecordSpecificationV6Adapter};
use crate::update_handler::{UpdateHandler, UpdateRequest, UpdateRequestView};

use super::{AuthenticationData, RecordSpecification};

verus! {

/// An address update to send to YDns: a GET of
/// `https://ydns.io/api/v1/update/?host=<host>&ip=<ip>` with basic
/// authentication.
#[derive(Debug)]
pub struct Request {
    pub host: String,
    pub ip: IpAddress,
    pub user: String,
    pub password: String,
}

pub struct RequestView {
    pub host: Seq<char>,
    pub ip: IpAddress,
    pub user: Seq<char>,
    pub password: Seq<char>,
}

impl View for Request {
    type V = RequestView;

    open spec fn view(&self) -> RequestView {
        RequestView { host: self.host@, ip: self.ip, user: self.user@, password: self.password@ }
    }
}

/// The address at which YDns takes updates; the host and address follow as
/// query parameters.
pub const UPDATE_URL: &'static str = "https://ydns.io/api/v1/update/";

impl Request {
    /// The update address with the host parameter, up to where the text of the
    /// address follows.
    pub fn url_before_address(&self) -> (r: String)
        ensures
            r@ == UPDATE_URL@ + "?host="@ + self.host@ + "&ip="@,
    {
        let mut r = UPDATE_URL.to_owned();
        r.append("?host=");
        r.append(self.host.as_str());
        r.append("&ip=");
        r
    }
}

/// The fully qualified name of host `name` in `domain`: "@" stands for the
/// domain itself.
pub open spec fn qualified_host(domain: Seq<char>, name: Seq<char>) -> Seq<char> {
    if name == seq!['@'] {
        domain
    } else {
        name + seq!['.'] + domain
    }
}

pub fn host_name(domain: &str, name: &str) -> (r: String)
    ensures
        r@ == qualified_host(domain@, name@),
{
    if name.unicode_len() == 1 && name.get_char(0) == '@' {
        assert(name@ =~= seq!['@']);
        domain.to_owned()
    } else {
        let mut r = name.to_owned();
        proof {
            reveal_strlit(".");
        }
        r.append(".");
        r.append(domain);
        assert(r@ =~= qualified_host(domain@, name@));
        r
    }
}

/// The mask that keeps the first `prefix_length + 1` bits of an address.
pub open spec fn prefix_mask(prefix_length: u8) -> u128 {
    !(u128::MAX >> ((prefix_length + 1) as u128))
}

/// The address with its bits after the prefix taken from `interface_id`.
pub open spec fn with_interface_id(ip: Ipv6Address, prefix_length: u8, interface_id: Ipv6Address) -> Ipv6Address {
    Ipv6Address { bits: (ip.bits & prefix_mask(prefix_length)) | interface_id.bits }
}

/// Keeps the prefix of `ip` (the first `prefix_length + 1` bits) and merges
/// `interface_id` into it.
pub fn replace_interface_id(ip: &mut Ipv6Address, prefix_length: u8, interface_id: Ipv6Address)
    requires
        prefix_length < 64,
    ensures
        *final(ip) == with_interface_id(*old(ip), prefix_length, interface_id),
{
    let shift = (prefix_length + 1) as u128;
    let prefix_mask = !(u128::MAX >> shift);
    ip.bits = (ip.bits & prefix_mask) | interface_id.bits;
}

/// The address that YDns is given for an IPv6 record.
pub open spec fn ipv6_sent(
    specification: RecordSpecificationV6Adapter<RecordSpecification>,
    ip: Ipv6Address,
) -> Ipv6Address {
    match specification.custom_interface_id {
        Some(c) => with_interface_id(ip, c.spec_prefix_length(), c.spec_interface_id()),
        None => ip,
    }
}

/// The YDns update of one host.
pub open spec fn ydns_update(
    auth: AuthenticationData,
    domain: Seq<char>,
    host: Seq<char>,
    ip: IpAddress,
) -> UpdateRequestView {
    UpdateRequestView::YDns(
        RequestView {
            host: qualified_host(domain, host),
            ip,
            user: auth.username@,
            password: auth.secret@,
        },
    )
}

/// The YDns provider.
pub struct Handler {
    user: String,
    password: String,
    auth: Ghost<AuthenticationData>,
}

impl Handler {
    fn update_ip_address(&self, domain: &str, name: &str, ip: &IpAddress) -> (r: Request)
        ensures
            r@ == (RequestView {
                host: qualified_host(domain@, name@),
                ip: *ip,
                user: self.user@,
                password: self.password@,
            }),
    {
        Request {
            host: host_name(domain, name),
            ip: *ip,
            user: self.user.clone(),
            password: self.password.clone(),
        }
    }
}

impl UpdateHandler<AuthenticationData, RecordSpecification, RecordSpecification> for Handler {
    closed spec fn authentication(&self) -> AuthenticationData {
        self.auth@
    }

    closed spec fn wf(&self) -> bool {
        self.user@ == self.auth@.username@ && self.password@ == self.auth@.secret@
    }

    open spec fn construction(auth: AuthenticationData) -> Result<(), Error> {
        Ok(())
    }

    open spec fn ipv4_update(
        auth: AuthenticationData,
        specification: RecordSpecification,
        domain: Seq<char>,
        host: Seq<char>,
        ip: Ipv4Address,
    ) -> Result<UpdateRequestView, Error> {
        Ok(ydns_update(auth, domain, host, IpAddress::V4(ip)))
    }

    open spec fn ipv6_update(
        auth: AuthenticationData,
        specification: RecordSpecificationV6Adapter<RecordSpecification>,
        domain: Seq<char>,
        host: Seq<char>,
        ip: Ipv6Address,
    ) -> Result<UpdateRequestView, Error> {
        Ok(ydns_update(auth, domain, host, IpAddress::V6(ipv6_sent(specification, ip))))
    }

    fn new(auth_data: &AuthenticationData) -> (r: Result<Handler, Error>) {
        Ok(
            Handler {
                user: auth_data.username.clone(),
                password: auth_data.secret.clone(),
                auth: Ghost(*auth_data),
            },
        )
    }

    fn update_ipv4_record(
        &self,
        _specification: &RecordSpecification,
        domain: &str,
        host: &str,
        ip: Ipv4Address,
    ) -> (r: Result<UpdateRequest, Error>) {
        Ok(UpdateRequest::YDns(self.update_ip_address(domain, host, &IpAddress::V4(ip))))
    }

    fn update_ipv6_record(
        &self,
        specification: &RecordSpecificationV6Adapter<RecordSpecification>,
        domain: &str,
        host: &str,
        ip: Ipv6Address,
    ) -> (r: Result<UpdateRequest, Error>) {
        let mut ip = ip;
        match &specification.custom_interface_id {
            Some(custom_interface_id) => {
                replace_interface_id(
                    &mut ip,
                    custom_interface_id.prefix_length(),
                    custom_interface_id.interface_id(),
                );
            },
            None => {},
        }
        Ok(UpdateRequest::YDns(self.update_ip_address(domain, host, &IpAddress::V6(ip))))
    }
}

} // verus!
