use vstd::prelude::*;

use crate::dns_record_list::Service;
use crate::godaddy;
use crate::record_type::RecordType;

verus! {

/// Why a reconciliation run stops.
#[derive(PartialEq, Eq, Structural, Clone, Copy, Debug)]
pub enum Error {
    /// The public address of this family could not be determined.
    ResolverError(RecordType),
    /// A configured service has no credential.
    AuthenticationError(Service),
    /// The GoDaddy handler refused the work.
    GoDaddyError(godaddy::Error),
}

} // verus!
