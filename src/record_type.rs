use vstd::prelude::*;

verus! {

/// A DNS address record type; each maps to one address family.
#[derive(PartialEq, Eq, Structural, Clone, Copy, Debug, Hash)]
pub enum RecordType {
    /// An IPv4 address record.
    A,
    /// An IPv6 address record.
    AAAA,
}

/// The name of a record type as DNS providers spell it.
pub open spec fn record_type_name(t: RecordType) -> Seq<char> {
    match t {
        RecordType::A => seq!['A'],
        RecordType::AAAA => seq!['A', 'A', 'A', 'A'],
    }
}

impl RecordType {
    /// The provider spelling of this record type ("A" or "AAAA").
    pub fn name(&self) -> (r: &'static str)
        ensures
            r@ == record_type_name(*self),
    {
        match self {
            RecordType::A => {
                proof {
                    reveal_strlit("A");
                }
                "A"
            },
            RecordType::AAAA => {
                proof {
                    reveal_strlit("AAAA");
                }
                "AAAA"
            },
        }
    }
}

/// An IPv4 address, held as its 32 bits in network order.
#[derive(PartialEq, Eq, Structural, Clone, Copy, Debug, Hash)]
pub struct Ipv4Address {
    pub bits: u32,
}

/// An IPv6 address, held as its 128 bits in network order.
#[derive(PartialEq, Eq, Structural, Clone, Copy, Debug, Hash)]
pub struct Ipv6Address {
    pub bits: u128,
}

/// An address of either family.
#[derive(PartialEq, Eq, Structural, Clone, Copy, Debug, Hash)]
pub enum IpAddress {
    V4(Ipv4Address),
    V6(Ipv6Address),
}

} // verus!

verus! {

/// A fixed interface identifier that replaces the host part of a resolved IPv6
/// address. The prefix length is below 64.
#[derive(Debug)]
pub struct CustomInterfaceId {
    prefix_length: u8,
    interface_id: Ipv6Address,
}

impl CustomInterfaceId {
    #[verifier::type_invariant]
    spec fn prefix_fits(self) -> bool {
        self.prefix_length < 64
    }

    pub closed spec fn spec_prefix_length(self) -> u8 {
        self.prefix_length
    }

    pub closed spec fn spec_interface_id(self) -> Ipv6Address {
        self.interface_id
    }

    /// Builds an interface identifier; fails when the prefix length is 64 or more.
    pub fn new(prefix_length: u8, interface_id: Ipv6Address) -> (r: Option<Self>)
        ensures
            r is Some <==> prefix_length < 64,
            r matches Some(c) ==> c.spec_prefix_length() == prefix_length
                && c.spec_interface_id() == interface_id,
    {
        if prefix_length < 64 {
            Some(CustomInterfaceId { prefix_length, interface_id })
        } else {
            None
        }
    }

    pub fn prefix_length(&self) -> (r: u8)
        ensures
            r == self.spec_prefix_length(),
            r < 64,
    {
        proof {
            use_type_invariant(self);
        }
        self.prefix_length
    }

    pub fn interface_id(&self) -> (r: Ipv6Address)
        ensures
            r == self.spec_interface_id(),
    {
        self.interface_id
    }
}

/// The IPv6 record specification of a provider, with an optional fixed
/// interface identifier.
#[derive(Debug)]
pub struct RecordSpecificationV6Adapter<RecordSpecificationV6> {
    pub record_specification: RecordSpecificationV6,
    pub custom_interface_id: Option<CustomInterfaceId>,
}

} // verus!
