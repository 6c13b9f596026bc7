use vstd::prelude::*;

use crate::dns_record_list::{
    domains_declare, host_declares, list_declares, record_types_of, service_declares,
    DomainSpecifications, ServiceSpecifications,
};
use crate::ips::{changed_families, IPs};
use crate::record_type::RecordType;

verus! {

/// A set of record types. Only two exist, so it is held as one flag each.
#[derive(PartialEq, Eq, Structural, Clone, Copy, Debug)]
pub struct RecordTypes {
    a: bool,
    aaaa: bool,
}

impl View for RecordTypes {
    type V = Set<RecordType>;

    closed spec fn view(&self) -> Set<RecordType> {
        let s = if self.a {
            set![RecordType::A]
        } else {
            Set::empty()
        };
        if self.aaaa {
            s.insert(RecordType::AAAA)
        } else {
            s
        }
    }
}

/// Every set of record types has at most two members.
pub proof fn lemma_at_most_two_families(s: RecordTypes)
    ensures
        s@.finite(),
        s@.len() <= 2,
        s@.len() == 0 <==> (!s@.contains(RecordType::A) && !s@.contains(RecordType::AAAA)),
        s@.len() == 2 <==> (s@.contains(RecordType::A) && s@.contains(RecordType::AAAA)),
{
    assert(set![RecordType::A].len() == 1);
    assert(Set::<RecordType>::empty().insert(RecordType::AAAA).len() == 1);
    assert(set![RecordType::A].insert(RecordType::AAAA).len() == 2);
    if s@.len() == 0 {
        if s.a {
            assert(s@.contains(RecordType::A));
        }
        if s.aaaa {
            assert(s@.contains(RecordType::AAAA));
        }
    }
}

impl RecordTypes {
    /// The empty set.
    pub fn new() -> (r: Self)
        ensures
            r@ == Set::<RecordType>::empty(),
    {
        let r = RecordTypes { a: false, aaaa: false };
        assert(r@ =~= Set::<RecordType>::empty());
        r
    }

    pub fn contains(&self, t: RecordType) -> (r: bool)
        ensures
            r == self@.contains(t),
    {
        match t {
            RecordType::A => self.a,
            RecordType::AAAA => self.aaaa,
        }
    }

    pub fn insert(&mut self, t: RecordType)
        ensures
            final(self)@ == old(self)@.insert(t),
    {
        match t {
            RecordType::A => self.a = true,
            RecordType::AAAA => self.aaaa = true,
        }
        assert(self@ =~= old(self)@.insert(t));
    }

    /// Removes `t`; returns whether it was there.
    pub fn remove(&mut self, t: RecordType) -> (r: bool)
        ensures
            final(self)@ == old(self)@.remove(t),
            r == old(self)@.contains(t),
    {
        let r = self.contains(t);
        match t {
            RecordType::A => self.a = false,
            RecordType::AAAA => self.aaaa = false,
        }
        assert(self@ =~= old(self)@.remove(t));
        r
    }

    pub fn len(&self) -> (r: usize)
        ensures
            r == self@.len(),
            r <= 2,
    {
        proof {
            lemma_at_most_two_families(*self);
        }
        if self.a && self.aaaa {
            2
        } else if self.a || self.aaaa {
            assert(self@ =~= set![RecordType::A] || self@ =~= set![RecordType::AAAA]);
            1
        } else {
            0
        }
    }

    pub fn is_empty(&self) -> (r: bool)
        ensures
            r == (self@.len() == 0),
    {
        proof {
            lemma_at_most_two_families(*self);
        }
        !self.a && !self.aaaa
    }
}

/// Adds to `set` every record type that some host of `specifications` asks for.
pub fn collect_record_types_domain<RecordSpecificationV4, RecordSpecificationV6>(
    set: &mut RecordTypes,
    specifications: &Vec<DomainSpecifications<RecordSpecificationV4, RecordSpecificationV6>>,
)
    ensures
        forall|t: RecordType|
            final(set)@.contains(t) <==> (old(set)@.contains(t) || domains_declare(
                specifications@,
                t,
            )),
{
    let ghost ds = specifications@;
    let mut i: usize = 0;
    while i < specifications.len()
        invariant
            ds == specifications@,
            i <= ds.len(),
            forall|t: RecordType|
                set@.contains(t) <==> (old(set)@.contains(t) || exists|k: int, j: int|
                    0 <= k < i && 0 <= j < ds[k].specifications@.len() && #[trigger] host_declares(
                        ds[k].specifications@[j],
                        t,
                    )),
        decreases ds.len() - i,
    {
        let hosts = &specifications[i].specifications;
        let mut j: usize = 0;
        while j < hosts.len()
            invariant
                ds == specifications@,
                i < ds.len(),
                hosts@ == ds[i as int].specifications@,
                j <= hosts@.len(),
                forall|t: RecordType|
                    set@.contains(t) <==> (old(set)@.contains(t) || (exists|k: int, jj: int|
                        0 <= k < i && 0 <= jj < ds[k].specifications@.len()
                            && #[trigger] host_declares(ds[k].specifications@[jj], t)) || (exists|
                        jj: int,
                    |
                        0 <= jj < j && #[trigger] host_declares(
                            ds[i as int].specifications@[jj],
                            t,
                        ))),
            decreases hosts@.len() - j,
        {
            let host = &hosts[j];
            if host.ipv4.is_some() {
                set.insert(RecordType::A);
            }
            if host.ipv6.is_some() {
                set.insert(RecordType::AAAA);
            }
            assert forall|t: RecordType|
                set@.contains(t) <==> (old(set)@.contains(t) || (exists|k: int, jj: int|
                    0 <= k < i && 0 <= jj < ds[k].specifications@.len()
                        && #[trigger] host_declares(ds[k].specifications@[jj], t)) || (exists|
                    jj: int,
                |
                    0 <= jj < j + 1 && #[trigger] host_declares(
                        ds[i as int].specifications@[jj],
                        t,
                    ))) by {
                if host_declares(ds[i as int].specifications@[j as int], t) {
                    assert(set@.contains(t));
                }
            }
            j = j + 1;
        }
        assert forall|t: RecordType|
            set@.contains(t) <==> (old(set)@.contains(t) || exists|k: int, jj: int|
                0 <= k < i + 1 && 0 <= jj < ds[k].specifications@.len()
                    && #[trigger] host_declares(ds[k].specifications@[jj], t)) by {
            if exists|k: int, jj: int|
                0 <= k < i + 1 && 0 <= jj < ds[k].specifications@.len()
                    && #[trigger] host_declares(ds[k].specifications@[jj], t) {
                let (k, jj) = choose|k: int, jj: int|
                    0 <= k < i + 1 && 0 <= jj < ds[k].specifications@.len()
                        && #[trigger] host_declares(ds[k].specifications@[jj], t);
                if k == i {
                    assert(host_declares(ds[i as int].specifications@[jj], t));
                }
            }
        }
        i = i + 1;
    }
}

/// The record types that the whole configuration asks for.
pub fn collect_record_types(dns_record_list: &Vec<ServiceSpecifications>) -> (r: RecordTypes)
    ensures
        r@ == record_types_of(dns_record_list@),
{
    let ghost l = dns_record_list@;
    let mut set = RecordTypes::new();
    let mut i: usize = 0;
    while i < dns_record_list.len()
        invariant
            l == dns_record_list@,
            i <= l.len(),
            forall|t: RecordType|
                set@.contains(t) <==> exists|k: int| 0 <= k < i && #[trigger] service_declares(l[k], t),
        decreases l.len() - i,
    {
        let ghost before = set;
        match &dns_record_list[i] {
            ServiceSpecifications::GoDaddy(specs) => collect_record_types_domain(&mut set, specs),
            ServiceSpecifications::YDns(specs) => collect_record_types_domain(&mut set, specs),
        }
        assert forall|t: RecordType|
            set@.contains(t) <==> exists|k: int| 0 <= k < i + 1 && #[trigger] service_declares(l[k], t) by {
            if service_declares(l[i as int], t) {
                assert(set@.contains(t));
            }
            if exists|k: int| 0 <= k < i + 1 && #[trigger] service_declares(l[k], t) {
                let k = choose|k: int| 0 <= k < i + 1 && #[trigger] service_declares(l[k], t);
                if k < i {
                    assert(before@.contains(t));
                }
            }
        }
        i = i + 1;
    }
    assert(set@ =~= record_types_of(l));
    set
}

/// Which record types a run still processes, derived from the size of a set
/// of record types.
#[derive(PartialEq, Eq, Structural, Clone, Copy, Debug)]
pub enum ShouldBeProcessed {
    /// No record type.
    Never,
    /// This record type only.
    Only(RecordType),
    /// Both record types.
    Always,
}

impl ShouldBeProcessed {
    pub open spec fn accepts(self, t: RecordType) -> bool {
        match self {
            ShouldBeProcessed::Never => false,
            ShouldBeProcessed::Only(x) => x == t,
            ShouldBeProcessed::Always => true,
        }
    }

    /// Whether record type `t` is processed.
    pub fn call(&self, t: RecordType) -> (r: bool)
        ensures
            r == self.accepts(t),
    {
        match self {
            ShouldBeProcessed::Never => false,
            ShouldBeProcessed::Only(x) => *x == t,
            ShouldBeProcessed::Always => true,
        }
    }
}

/// The predicate of a set of record types: no set gives "never", a set of
/// one gives that one only, and a set of both gives "always".
pub fn generate_should_be_processed(records: &RecordTypes) -> (r: ShouldBeProcessed)
    ensures
        forall|t: RecordType| r.accepts(t) == records@.contains(t),
        records@.len() == 0 ==> r == ShouldBeProcessed::Never,
        records@.len() == 1 ==> exists|t: RecordType|
            records@ == set![t] && r == ShouldBeProcessed::Only(t),
        records@.len() == 2 ==> r == ShouldBeProcessed::Always,
{
    proof {
        lemma_at_most_two_families(*records);
    }
    let n = records.len();
    if n == 0 {
        ShouldBeProcessed::Never
    } else if n == 1 {
        let t = if records.contains(RecordType::A) {
            RecordType::A
        } else {
            RecordType::AAAA
        };
        assert(records@ =~= set![t]);
        ShouldBeProcessed::Only(t)
    } else {
        ShouldBeProcessed::Always
    }
}

} // verus!

verus! {

/// Drops from `records` each family whose resolved address equals the
/// persisted one: there is nothing to push for it.
pub fn remove_unchanged(records: &mut RecordTypes, persisted: &Option<IPs>, resolved: &IPs)
    ensures
        final(records)@ == changed_families(old(records)@, *persisted, *resolved),
{
    match persisted {
        Some(old_ips) => {
            match (old_ips.ipv4, resolved.ipv4) {
                (Some(ip_old), Some(ip_new)) => {
                    if ip_old == ip_new {
                        records.remove(RecordType::A);
                    }
                },
                _ => {},
            }
            match (old_ips.ipv6, resolved.ipv6) {
                (Some(ip_old), Some(ip_new)) => {
                    if ip_old == ip_new {
                        records.remove(RecordType::AAAA);
                    }
                },
                _ => {},
            }
        },
        None => {},
    }
    assert(records@ =~= changed_families(old(records)@, *persisted, *resolved));
}

} // verus!
