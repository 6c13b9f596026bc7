use vstd::prelude::*;

use crate::dns_record_list::Service;
use crate::godaddy;
use crate::ydns;

verus! {

/// A credential, tagged with the provider it authenticates at.
#[derive(Debug)]
pub enum AuthenticationData {
    GoDaddy(godaddy::AuthenticationData),
    YDns(ydns::AuthenticationData),
}

pub type AuthenticationDataList = Vec<AuthenticationData>;

pub open spec fn credential_service(a: AuthenticationData) -> Service {
    match a {
        AuthenticationData::GoDaddy(_) => Service::GoDaddy,
        AuthenticationData::YDns(_) => Service::YDns,
    }
}

impl AuthenticationData {
    /// The provider this credential belongs to.
    pub fn service(&self) -> (r: Service)
        ensures
            r == credential_service(*self),
    {
        match self {
            AuthenticationData::GoDaddy(_) => Service::GoDaddy,
            AuthenticationData::YDns(_) => Service::YDns,
        }
    }
}

/// The last GoDaddy credential of a list.
pub open spec fn last_godaddy(list: Seq<AuthenticationData>) -> Option<godaddy::AuthenticationData>
    decreases list.len(),
{
    if list.len() == 0 {
        None
    } else {
        match list.last() {
            AuthenticationData::GoDaddy(a) => Some(a),
            _ => last_godaddy(list.drop_last()),
        }
    }
}

/// The last YDns credential of a list.
pub open spec fn last_ydns(list: Seq<AuthenticationData>) -> Option<ydns::AuthenticationData>
    decreases list.len(),
{
    if list.len() == 0 {
        None
    } else {
        match list.last() {
            AuthenticationData::YDns(a) => Some(a),
            _ => last_ydns(list.drop_last()),
        }
    }
}

/// The credential of each provider; at most one each.
#[derive(Debug)]
pub struct ServiceToAuthData {
    pub godaddy: Option<godaddy::AuthenticationData>,
    pub ydns: Option<ydns::AuthenticationData>,
}

/// Whether a credential for `s` is present.
pub open spec fn has_credential(c: ServiceToAuthData, s: Service) -> bool {
    match s {
        Service::GoDaddy => c.godaddy is Some,
        Service::YDns => c.ydns is Some,
    }
}

impl ServiceToAuthData {
    pub fn contains(&self, s: Service) -> (r: bool)
        ensures
            r == has_credential(*self, s),
    {
        match s {
            Service::GoDaddy => self.godaddy.is_some(),
            Service::YDns => self.ydns.is_some(),
        }
    }
}

/// Maps each provider to its credential; where a list names a provider more
/// than once, the last credential counts.
pub fn map_authentication_data(authentication_data_list: Vec<AuthenticationData>) -> (r:
    ServiceToAuthData)
    ensures
        r.godaddy == last_godaddy(authentication_data_list@),
        r.ydns == last_ydns(authentication_data_list@),
{
    let ghost all = authentication_data_list@;
    let mut list = authentication_data_list;
    let ghost mut seen: Seq<AuthenticationData> = Seq::empty();
    let mut r = ServiceToAuthData { godaddy: None, ydns: None };
    while list.len() > 0
        invariant
            all =~= seen + list@,
            r.godaddy == last_godaddy(seen),
            r.ydns == last_ydns(seen),
        decreases list@.len(),
    {
        let auth_data = list.remove(0);
        proof {
            assert(seen.push(auth_data).drop_last() =~= seen);
            seen = seen.push(auth_data);
        }
        match auth_data {
            AuthenticationData::GoDaddy(a) => r.godaddy = Some(a),
            AuthenticationData::YDns(a) => r.ydns = Some(a),
        }
    }
    r
}

} // verus!
