use vstd::prelude::*;

use crate::error::Error;
use crate::record_type::{Ipv4Address, Ipv6Address, RecordType};

verus! {

/// A pair of addresses: the last ones a run pushed, or the ones just resolved.
/// Either may be absent.
#[derive(PartialEq, Eq, Structural, Clone, Copy, Debug)]
pub struct IPs {
    pub ipv4: Option<Ipv4Address>,
    pub ipv6: Option<Ipv6Address>,
}

/// Whether the address of family `t` is known in `ips`.
pub open spec fn has_address(ips: IPs, t: RecordType) -> bool {
    match t {
        RecordType::A => ips.ipv4 is Some,
        RecordType::AAAA => ips.ipv6 is Some,
    }
}

/// Whether the persisted address of family `t` is known and equals the
/// resolved one.
pub open spec fn unchanged(persisted: Option<IPs>, resolved: IPs, t: RecordType) -> bool {
    match persisted {
        None => false,
        Some(p) => match t {
            RecordType::A => p.ipv4 is Some && p.ipv4 == resolved.ipv4,
            RecordType::AAAA => p.ipv6 is Some && p.ipv6 == resolved.ipv6,
        },
    }
}

/// The families of `records` whose address moved (or was never known).
pub open spec fn changed_families(
    records: Set<RecordType>,
    persisted: Option<IPs>,
    resolved: IPs,
) -> Set<RecordType> {
    Set::new(|t: RecordType| records.contains(t) && !unchanged(persisted, resolved, t))
}

/// The addresses a run works with: for each family in `records` what the
/// resolver gave, none for the others.
pub open spec fn resolved_pair(records: Set<RecordType>, resolver: IPs) -> IPs {
    IPs {
        ipv4: if records.contains(RecordType::A) {
            resolver.ipv4
        } else {
            None
        },
        ipv6: if records.contains(RecordType::AAAA) {
            resolver.ipv6
        } else {
            None
        },
    }
}

/// The address the resolver gave for `family`, or the resolver error when it
/// gave none.
pub fn resolved_address<Address>(family: RecordType, resolved: Option<Address>) -> (r: Result<
    Address,
    Error,
>)
    ensures
        r == match resolved {
            Some(a) => Ok::<Address, Error>(a),
            None => Err(Error::ResolverError(family)),
        },
{
    match resolved {
        Some(a) => Ok(a),
        None => Err(Error::ResolverError(family)),
    }
}

} // verus!
