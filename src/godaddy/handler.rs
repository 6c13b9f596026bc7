use vstd::prelude::*;

use crate::error::Error;
use crate::record_type::{IpAddress, Ipv4Address, Ipv6Address, RecordSpecificationV6Adapter, RecordType};
use crate::update_handler::{UpdateHandler, UpdateRequest, UpdateRequestView};

use super::authority::{
    authorization_header, authorization_of, is_valid_header_value, update_request, valid_header_value, Authority,
};
use super::{api_url_serialization, AuthenticationData, RecordSpecification};

verus! {

/// The GoDaddy provider.
pub struct Handler {
    authority: Authority,
    auth: Ghost<AuthenticationData>,
}

/// The GoDaddy update of one record, for a credential whose API address is valid.
pub open spec fn godaddy_update(
    auth: AuthenticationData,
    domain: Seq<char>,
    host: Seq<char>,
    ip: IpAddress,
    ttl: u32,
    record_type: RecordType,
) -> Result<UpdateRequestView, Error> {
    match api_url_serialization(auth.api_url) {
        Ok(url) => Ok(
            UpdateRequestView::GoDaddy(
                update_request(
                    url,
                    authorization_of(auth.api_key@, auth.api_secret@),
                    domain,
                    host,
                    ip,
                    ttl,
                    record_type,
                ),
            ),
        ),
        Err(e) => Err(Error::GoDaddyError(e)),
    }
}

impl UpdateHandler<AuthenticationData, RecordSpecification, RecordSpecification> for Handler {
    closed spec fn authentication(&self) -> AuthenticationData {
        self.auth@
    }

    closed spec fn wf(&self) -> bool {
        &&& api_url_serialization(self.auth@.api_url) == Ok::<Seq<char>, super::Error>(
            self.authority.spec_api_url(),
        )
        &&& self.authority.spec_authorization() == authorization_of(
            self.auth@.api_key@,
            self.auth@.api_secret@,
        )
    }

    open spec fn construction(auth: AuthenticationData) -> Result<(), Error> {
        match api_url_serialization(auth.api_url) {
            Ok(_) => if valid_header_value(authorization_of(auth.api_key@, auth.api_secret@)) {
                Ok(())
            } else {
                Err(Error::GoDaddyError(super::Error::InvalidHeader))
            },
            Err(e) => Err(Error::GoDaddyError(e)),
        }
    }

    open spec fn ipv4_update(
        auth: AuthenticationData,
        specification: RecordSpecification,
        domain: Seq<char>,
        host: Seq<char>,
        ip: Ipv4Address,
    ) -> Result<UpdateRequestView, Error> {
        godaddy_update(auth, domain, host, IpAddress::V4(ip), specification.ttl, RecordType::A)
    }

    open spec fn ipv6_update(
        auth: AuthenticationData,
        specification: RecordSpecificationV6Adapter<RecordSpecification>,
        domain: Seq<char>,
        host: Seq<char>,
        ip: Ipv6Address,
    ) -> Result<UpdateRequestView, Error> {
        if specification.custom_interface_id is Some {
            Err(Error::GoDaddyError(super::Error::NotImplemented))
        } else {
            godaddy_update(
                auth,
                domain,
                host,
                IpAddress::V6(ip),
                specification.record_specification.ttl,
                RecordType::AAAA,
            )
        }
    }

    fn new(auth_data: &AuthenticationData) -> (r: Result<Handler, Error>) {
        match auth_data.api_url.to_url() {
            Ok(url) => {
                let header = authorization_header(auth_data.api_key.as_str(), auth_data.api_secret.as_str());
                if is_valid_header_value(header.as_str()) {
                    let authority = Authority::new(
                        auth_data.api_key.as_str(),
                        auth_data.api_secret.as_str(),
                        url,
                    );
                    Ok(Handler { authority, auth: Ghost(*auth_data) })
                } else {
                    Err(Error::GoDaddyError(super::Error::InvalidHeader))
                }
            },
            Err(e) => Err(Error::GoDaddyError(e)),
        }
    }

    fn update_ipv4_record(
        &self,
        specification: &RecordSpecification,
        domain: &str,
        host: &str,
        ip: Ipv4Address,
    ) -> (r: Result<UpdateRequest, Error>) {
        Ok(UpdateRequest::GoDaddy(self.authority.update_ipv4_address(domain, host, &ip, specification.ttl)))
    }

    fn update_ipv6_record(
        &self,
        specification: &RecordSpecificationV6Adapter<RecordSpecification>,
        domain: &str,
        host: &str,
        ip: Ipv6Address,
    ) -> (r: Result<UpdateRequest, Error>) {
        if specification.custom_interface_id.is_some() {
            return Err(Error::GoDaddyError(super::Error::NotImplemented));
        }
        Ok(
            UpdateRequest::GoDaddy(
                self.authority.update_ipv6_address(
                    domain,
                    host,
                    &ip,
                    specification.record_specification.ttl,
                ),
            ),
        )
    }
}

} // verus!
