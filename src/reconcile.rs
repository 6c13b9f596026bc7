use vstd::prelude::*;

use crate::authentication_data::{has_credential, ServiceToAuthData};
use crate::dns_record_list::{
    record_types_of, service_of, DomainSpecifications, HostSpecifications, Service,
    ServiceSpecifications,
};
use crate::error::Error;
use crate::gate::{collect_record_types, lemma_at_most_two_families, remove_unchanged, ShouldBeProcessed};
use crate::godaddy;
use crate::ips::{changed_families, has_address, resolved_pair, IPs};
use crate::record_type::{Ipv4Address, Ipv6Address, RecordSpecificationV6Adapter, RecordType};
use crate::update_handler::{request_family, UpdateHandler, UpdateRequest, UpdateRequestView};
use crate::ydns;

verus! {

/// Where planning stands: the updates to send so far, and the failure that
/// stopped it, if any.
pub type PlanState = (Seq<UpdateRequestView>, Option<Error>);

pub open spec fn requests_view(v: Seq<UpdateRequest>) -> Seq<UpdateRequestView> {
    v.map_values(|r: UpdateRequest| r@)
}

/// Takes in the outcome of one handler call: once a call failed, nothing
/// more is taken.
pub open spec fn absorb(st: PlanState, r: Result<UpdateRequestView, Error>) -> PlanState {
    if st.1 is Some {
        st
    } else {
        match r {
            Ok(q) => (st.0.push(q), None),
            Err(e) => (st.0, Some(e)),
        }
    }
}

/// The calls for one host: its IPv4 record, then its IPv6 record, each only
/// where the host declares it and its family is still processed.
pub open spec fn host_step<A, V4, V6, H: UpdateHandler<A, V4, V6>>(
    st: PlanState,
    auth: A,
    domain: Seq<char>,
    host: HostSpecifications<V4, V6>,
    should: ShouldBeProcessed,
    ipv4: Option<Ipv4Address>,
    ipv6: Option<Ipv6Address>,
) -> PlanState {
    let st1 = if host.ipv4 is Some && should.accepts(RecordType::A) {
        absorb(st, H::ipv4_update(auth, host.ipv4->0, domain, host.host_name@, ipv4->0))
    } else {
        st
    };
    if host.ipv6 is Some && should.accepts(RecordType::AAAA) {
        absorb(st1, H::ipv6_update(auth, host.ipv6->0, domain, host.host_name@, ipv6->0))
    } else {
        st1
    }
}

pub open spec fn hosts_step<A, V4, V6, H: UpdateHandler<A, V4, V6>>(
    st: PlanState,
    auth: A,
    domain: Seq<char>,
    hosts: Seq<HostSpecifications<V4, V6>>,
    should: ShouldBeProcessed,
    ipv4: Option<Ipv4Address>,
    ipv6: Option<Ipv6Address>,
) -> PlanState
    decreases hosts.len(),
{
    if hosts.len() == 0 {
        st
    } else {
        host_step::<A, V4, V6, H>(
            hosts_step::<A, V4, V6, H>(st, auth, domain, hosts.drop_last(), should, ipv4, ipv6),
            auth,
            domain,
            hosts.last(),
            should,
            ipv4,
            ipv6,
        )
    }
}

/// The calls for a sequence of domains, in order, host by host.
pub open spec fn domains_step<A, V4, V6, H: UpdateHandler<A, V4, V6>>(
    st: PlanState,
    auth: A,
    domains: Seq<DomainSpecifications<V4, V6>>,
    should: ShouldBeProcessed,
    ipv4: Option<Ipv4Address>,
    ipv6: Option<Ipv6Address>,
) -> PlanState
    decreases domains.len(),
{
    if domains.len() == 0 {
        st
    } else {
        let d = domains.last();
        hosts_step::<A, V4, V6, H>(
            domains_step::<A, V4, V6, H>(st, auth, domains.drop_last(), should, ipv4, ipv6),
            auth,
            d.domain_name@,
            d.specifications@,
            should,
            ipv4,
            ipv6,
        )
    }
}

/// Asks `handler` for the update of every record of `specifications` whose
/// family is processed, domain by domain and host by host, and appends them to
/// `requests`; stops asking at the first refusal and returns it.
pub fn handle_domains_by_service<AuthData, SpecificationV4, SpecificationV6, Handler>(
    handler: &Handler,
    specifications: &Vec<DomainSpecifications<SpecificationV4, SpecificationV6>>,
    should_be_processed: &ShouldBeProcessed,
    ipv4: Option<Ipv4Address>,
    ipv6: Option<Ipv6Address>,
    requests: &mut Vec<UpdateRequest>,
) -> (r: Result<(), Error>) where
    Handler: UpdateHandler<AuthData, SpecificationV4, SpecificationV6>,

    requires
        handler.wf(),
        should_be_processed.accepts(RecordType::A) ==> ipv4 is Some,
        should_be_processed.accepts(RecordType::AAAA) ==> ipv6 is Some,
    ensures
        (requests_view(final(requests)@), match r {
            Ok(_) => None,
            Err(e) => Some(e),
        }) == domains_step::<AuthData, SpecificationV4, SpecificationV6, Handler>(
            (requests_view(old(requests)@), None),
            handler.authentication(),
            specifications@,
            *should_be_processed,
            ipv4,
            ipv6,
        ),
{
    let ghost auth = handler.authentication();
    let ghost st0: PlanState = (requests_view(old(requests)@), None);
    let ghost should = *should_be_processed;
    let ghost ds = specifications@;
    let mut failure: Option<Error> = None;
    let mut i: usize = 0;
    while i < specifications.len()
        invariant
            ds == specifications@,
            handler.wf(),
            auth == handler.authentication(),
            should == *should_be_processed,
            should.accepts(RecordType::A) ==> ipv4 is Some,
            should.accepts(RecordType::AAAA) ==> ipv6 is Some,
            i <= ds.len(),
            (requests_view(requests@), failure) == domains_step::<
                AuthData,
                SpecificationV4,
                SpecificationV6,
                Handler,
            >(st0, auth, ds.subrange(0, i as int), should, ipv4, ipv6),
        decreases ds.len() - i,
    {
        let domain = &specifications[i];
        let hosts = &domain.specifications;
        let ghost before: PlanState = (requests_view(requests@), failure);
        let mut j: usize = 0;
        while j < hosts.len()
            invariant
                ds == specifications@,
                i < ds.len(),
                *domain == ds[i as int],
                hosts@ == ds[i as int].specifications@,
                handler.wf(),
                auth == handler.authentication(),
                should == *should_be_processed,
                should.accepts(RecordType::A) ==> ipv4 is Some,
                should.accepts(RecordType::AAAA) ==> ipv6 is Some,
                j <= hosts@.len(),
                (requests_view(requests@), failure) == hosts_step::<
                    AuthData,
                    SpecificationV4,
                    SpecificationV6,
                    Handler,
                >(before, auth, domain.domain_name@, hosts@.subrange(0, j as int), should, ipv4, ipv6),
            decreases hosts@.len() - j,
        {
            let host = &hosts[j];
            let ghost st_host: PlanState = (requests_view(requests@), failure);
            if failure.is_none() {
                match &host.ipv4 {
                    Some(spec) => {
                        if should_be_processed.call(RecordType::A) {
                            let ip = ipv4.unwrap();
                            match handler.update_ipv4_record(
                                spec,
                                domain.domain_name.as_str(),
                                host.host_name.as_str(),
                                ip,
                            ) {
                                Ok(q) => {
                                    let ghost old_v = requests@;
                                    requests.push(q);
                                    assert(requests_view(requests@) =~= requests_view(old_v).push(q@));
                                },
                                Err(e) => failure = Some(e),
                            }
                        }
                    },
                    None => {},
                }
            }
            if failure.is_none() {
                match &host.ipv6 {
                    Some(spec) => {
                        if should_be_processed.call(RecordType::AAAA) {
                            let ip = ipv6.unwrap();
                            match handler.update_ipv6_record(
                                spec,
                                domain.domain_name.as_str(),
                                host.host_name.as_str(),
                                ip,
                            ) {
                                Ok(q) => {
                                    let ghost old_v = requests@;
                                    requests.push(q);
                                    assert(requests_view(requests@) =~= requests_view(old_v).push(q@));
                                },
                                Err(e) => failure = Some(e),
                            }
                        }
                    },
                    None => {},
                }
            }
            assert(hosts@.subrange(0, j + 1).drop_last() =~= hosts@.subrange(0, j as int));
            j = j + 1;
        }
        assert(hosts@.subrange(0, hosts@.len() as int) =~= hosts@);
        assert(ds.subrange(0, i + 1).drop_last() =~= ds.subrange(0, i as int));
        i = i + 1;
    }
    assert(ds.subrange(0, ds.len() as int) =~= ds);
    match failure {
        Some(e) => Err(e),
        None => Ok(()),
    }
}

} // verus!

verus! {

/// Why a service cannot be handled: no credential, or a credential its
/// handler cannot be built from.
pub open spec fn service_error(s: ServiceSpecifications, credentials: ServiceToAuthData) -> Option<
    Error,
> {
    match s {
        ServiceSpecifications::GoDaddy(_) => match credentials.godaddy {
            None => Some(Error::AuthenticationError(Service::GoDaddy)),
            Some(a) => match <godaddy::Handler as UpdateHandler<
                godaddy::AuthenticationData,
                godaddy::RecordSpecification,
                godaddy::RecordSpecification,
            >>::construction(a) {
                Ok(_) => None,
                Err(e) => Some(e),
            },
        },
        ServiceSpecifications::YDns(_) => match credentials.ydns {
            None => Some(Error::AuthenticationError(Service::YDns)),
            Some(a) => match <ydns::Handler as UpdateHandler<
                ydns::AuthenticationData,
                ydns::RecordSpecification,
                ydns::RecordSpecification,
            >>::construction(a) {
                Ok(_) => None,
                Err(e) => Some(e),
            },
        },
    }
}

/// What stops a run at a service: at the credential stage, a missing
/// credential; at the handler stage (`build`), also a credential its handler
/// cannot be built from.
pub open spec fn stage_error(s: ServiceSpecifications, credentials: ServiceToAuthData, build: bool) -> Option<
    Error,
> {
    if build {
        service_error(s, credentials)
    } else if has_credential(credentials, service_of(s)) {
        None
    } else {
        Some(Error::AuthenticationError(service_of(s)))
    }
}

/// The error of the first service, in configuration order, that stops the
/// run at the given stage.
pub open spec fn first_service_error(
    list: Seq<ServiceSpecifications>,
    credentials: ServiceToAuthData,
    build: bool,
) -> Option<Error>
    decreases list.len(),
{
    if list.len() == 0 {
        None
    } else {
        match first_service_error(list.drop_last(), credentials, build) {
            Some(e) => Some(e),
            None => stage_error(list.last(), credentials, build),
        }
    }
}

/// The calls for one service, through the handler of its credential.
pub open spec fn service_step(
    st: PlanState,
    s: ServiceSpecifications,
    credentials: ServiceToAuthData,
    should: ShouldBeProcessed,
    ipv4: Option<Ipv4Address>,
    ipv6: Option<Ipv6Address>,
) -> PlanState {
    if st.1 is Some {
        st
    } else {
        match s {
            ServiceSpecifications::GoDaddy(ds) => domains_step::<
                godaddy::AuthenticationData,
                godaddy::RecordSpecification,
                godaddy::RecordSpecification,
                godaddy::Handler,
            >(st, credentials.godaddy->0, ds@, should, ipv4, ipv6),
            ServiceSpecifications::YDns(ds) => domains_step::<
                ydns::AuthenticationData,
                ydns::RecordSpecification,
                ydns::RecordSpecification,
                ydns::Handler,
            >(st, credentials.ydns->0, ds@, should, ipv4, ipv6),
        }
    }
}

pub open spec fn services_step(
    st: PlanState,
    list: Seq<ServiceSpecifications>,
    credentials: ServiceToAuthData,
    should: ShouldBeProcessed,
    ipv4: Option<Ipv4Address>,
    ipv6: Option<Ipv6Address>,
) -> PlanState
    decreases list.len(),
{
    if list.len() == 0 {
        st
    } else {
        service_step(
            services_step(st, list.drop_last(), credentials, should, ipv4, ipv6),
            list.last(),
            credentials,
            should,
            ipv4,
            ipv6,
        )
    }
}

/// The outcome of planning a run's updates. When some service has no
/// credential: no call, and the authentication error of the first such
/// service. Else, when some credential cannot be used: no call, and the first
/// such error. Else the calls of all services in configuration order, up to
/// the first refusal.
pub open spec fn update_plan(
    list: Seq<ServiceSpecifications>,
    credentials: ServiceToAuthData,
    should: ShouldBeProcessed,
    ipv4: Option<Ipv4Address>,
    ipv6: Option<Ipv6Address>,
) -> PlanState {
    match first_service_error(list, credentials, false) {
        Some(e) => (Seq::empty(), Some(e)),
        None => match first_service_error(list, credentials, true) {
            Some(e) => (Seq::empty(), Some(e)),
            None => services_step((Seq::empty(), None), list, credentials, should, ipv4, ipv6),
        },
    }
}

/// The provider calls of a run, in order. They are sent one by one; the first
/// that fails ends the run. When all were sent, `failure`, if any, ends it.
#[derive(Debug)]
pub struct UpdatePlan {
    pub requests: Vec<UpdateRequest>,
    pub failure: Option<Error>,
}

/// Checks that every service has a credential it can be handled with, then
/// asks each service's handler for its updates.
pub fn plan_updates(
    dns_entries: &Vec<ServiceSpecifications>,
    credentials: &ServiceToAuthData,
    should_be_processed: &ShouldBeProcessed,
    ipv4: Option<Ipv4Address>,
    ipv6: Option<Ipv6Address>,
) -> (r: UpdatePlan)
    requires
        should_be_processed.accepts(RecordType::A) ==> ipv4 is Some,
        should_be_processed.accepts(RecordType::AAAA) ==> ipv6 is Some,
    ensures
        (requests_view(r.requests@), r.failure) == update_plan(
            dns_entries@,
            *credentials,
            *should_be_processed,
            ipv4,
            ipv6,
        ),
        r.requests@.len() == update_plan(
            dns_entries@,
            *credentials,
            *should_be_processed,
            ipv4,
            ipv6,
        ).0.len(),
        r.failure == update_plan(dns_entries@, *credentials, *should_be_processed, ipv4, ipv6).1,
{
    let ghost list = dns_entries@;
    let mut c: usize = 0;
    while c < dns_entries.len()
        invariant
            list == dns_entries@,
            c <= list.len(),
            first_service_error(list.subrange(0, c as int), *credentials, false) is None,
        decreases list.len() - c,
    {
        assert(list.subrange(0, c + 1).drop_last() =~= list.subrange(0, c as int));
        let service = dns_entries[c].service();
        if !credentials.contains(service) {
            proof {
                lemma_first_service_error_stays(list, *credentials, false, c + 1);
            }
            return UpdatePlan { requests: Vec::new(), failure: Some(Error::AuthenticationError(service)) };
        }
        c = c + 1;
    }
    assert(list.subrange(0, list.len() as int) =~= list);
    let mut i: usize = 0;
    while i < dns_entries.len()
        invariant
            list == dns_entries@,
            i <= list.len(),
            first_service_error(list, *credentials, false) is None,
            first_service_error(list.subrange(0, i as int), *credentials, true) is None,
        decreases list.len() - i,
    {
        assert(list.subrange(0, i + 1).drop_last() =~= list.subrange(0, i as int));
        let error = match &dns_entries[i] {
            ServiceSpecifications::GoDaddy(_) => match &credentials.godaddy {
                None => Some(Error::AuthenticationError(Service::GoDaddy)),
                Some(a) => match godaddy::Handler::new(a) {
                    Ok(_) => None,
                    Err(e) => Some(e),
                },
            },
            ServiceSpecifications::YDns(_) => match &credentials.ydns {
                None => Some(Error::AuthenticationError(Service::YDns)),
                Some(a) => match ydns::Handler::new(a) {
                    Ok(_) => None,
                    Err(e) => Some(e),
                },
            },
        };
        match error {
            Some(e) => {
                proof {
                    lemma_first_service_error_stays(list, *credentials, true, i + 1);
                }
                return UpdatePlan { requests: Vec::new(), failure: Some(e) };
            },
            None => {},
        }
        i = i + 1;
    }
    assert(list.subrange(0, list.len() as int) =~= list);
    let mut requests: Vec<UpdateRequest> = Vec::new();
    let mut failure: Option<Error> = None;
    let ghost st0: PlanState = (Seq::empty(), None);
    assert(requests_view(requests@) =~= Seq::<UpdateRequestView>::empty());
    let mut k: usize = 0;
    while k < dns_entries.len()
        invariant
            list == dns_entries@,
            first_service_error(list, *credentials, false) is None,
            first_service_error(list, *credentials, true) is None,
            should_be_processed.accepts(RecordType::A) ==> ipv4 is Some,
            should_be_processed.accepts(RecordType::AAAA) ==> ipv6 is Some,
            k <= list.len(),
            (requests_view(requests@), failure) == services_step(
                st0,
                list.subrange(0, k as int),
                *credentials,
                *should_be_processed,
                ipv4,
                ipv6,
            ),
        decreases list.len() - k,
    {
        assert(list.subrange(0, k + 1).drop_last() =~= list.subrange(0, k as int));
        proof {
            lemma_no_service_error_at(list, *credentials, k as int);
        }
        if failure.is_none() {
            let outcome = match &dns_entries[k] {
                ServiceSpecifications::GoDaddy(specifications) => {
                    let auth = credentials.godaddy.as_ref().unwrap();
                    match godaddy::Handler::new(auth) {
                        Ok(handler) => handle_domains_by_service(
                            &handler,
                            specifications,
                            should_be_processed,
                            ipv4,
                            ipv6,
                            &mut requests,
                        ),
                        Err(e) => Err(e),
                    }
                },
                ServiceSpecifications::YDns(specifications) => {
                    let auth = credentials.ydns.as_ref().unwrap();
                    match ydns::Handler::new(auth) {
                        Ok(handler) => handle_domains_by_service(
                            &handler,
                            specifications,
                            should_be_processed,
                            ipv4,
                            ipv6,
                            &mut requests,
                        ),
                        Err(e) => Err(e),
                    }
                },
            };
            match outcome {
                Ok(_) => {},
                Err(e) => failure = Some(e),
            }
        }
        k = k + 1;
    }
    assert(list.subrange(0, list.len() as int) =~= list);
    assert(requests_view(requests@).len() == requests@.len());
    UpdatePlan { requests, failure }
}

/// Once a prefix of the services holds one that stops the run, every longer
/// prefix reports the same first error.
proof fn lemma_first_service_error_stays(
    list: Seq<ServiceSpecifications>,
    credentials: ServiceToAuthData,
    build: bool,
    n: int,
)
    requires
        0 <= n <= list.len(),
        first_service_error(list.subrange(0, n), credentials, build) is Some,
    ensures
        first_service_error(list, credentials, build) == first_service_error(
            list.subrange(0, n),
            credentials,
            build,
        ),
    decreases list.len() - n,
{
    if n < list.len() {
        assert(list.subrange(0, n + 1).drop_last() =~= list.subrange(0, n));
        lemma_first_service_error_stays(list, credentials, build, n + 1);
    } else {
        assert(list.subrange(0, n) =~= list);
    }
}

/// When no service stops the run, each one in particular can be handled.
proof fn lemma_no_service_error_at(
    list: Seq<ServiceSpecifications>,
    credentials: ServiceToAuthData,
    k: int,
)
    requires
        0 <= k < list.len(),
        first_service_error(list, credentials, true) is None,
    ensures
        service_error(list[k], credentials) is None,
    decreases list.len(),
{
    if k < list.len() - 1 {
        lemma_no_service_error_at(list.drop_last(), credentials, k);
    }
}

} // verus!

verus! {

/// A predicate that accepts no record type.
pub open spec fn accepts_none(should: ShouldBeProcessed) -> bool {
    forall|t: RecordType| !#[trigger] should.accepts(t)
}

proof fn lemma_hosts_step_idle<A, V4, V6, H: UpdateHandler<A, V4, V6>>(
    st: PlanState,
    auth: A,
    domain: Seq<char>,
    hosts: Seq<HostSpecifications<V4, V6>>,
    should: ShouldBeProcessed,
    ipv4: Option<Ipv4Address>,
    ipv6: Option<Ipv6Address>,
)
    requires
        accepts_none(should),
    ensures
        hosts_step::<A, V4, V6, H>(st, auth, domain, hosts, should, ipv4, ipv6) == st,
    decreases hosts.len(),
{
    assert(!should.accepts(RecordType::A) && !should.accepts(RecordType::AAAA));
    if hosts.len() > 0 {
        lemma_hosts_step_idle::<A, V4, V6, H>(st, auth, domain, hosts.drop_last(), should, ipv4, ipv6);
    }
}

proof fn lemma_domains_step_idle<A, V4, V6, H: UpdateHandler<A, V4, V6>>(
    st: PlanState,
    auth: A,
    domains: Seq<DomainSpecifications<V4, V6>>,
    should: ShouldBeProcessed,
    ipv4: Option<Ipv4Address>,
    ipv6: Option<Ipv6Address>,
)
    requires
        accepts_none(should),
    ensures
        domains_step::<A, V4, V6, H>(st, auth, domains, should, ipv4, ipv6) == st,
    decreases domains.len(),
{
    if domains.len() > 0 {
        lemma_domains_step_idle::<A, V4, V6, H>(st, auth, domains.drop_last(), should, ipv4, ipv6);
        let d = domains.last();
        lemma_hosts_step_idle::<A, V4, V6, H>(st, auth, d.domain_name@, d.specifications@, should, ipv4, ipv6);
    }
}

/// A run whose predicate accepts no record type plans no provider call.
pub proof fn lemma_idle_plan_sends_nothing(
    list: Seq<ServiceSpecifications>,
    credentials: ServiceToAuthData,
    should: ShouldBeProcessed,
    ipv4: Option<Ipv4Address>,
    ipv6: Option<Ipv6Address>,
)
    requires
        accepts_none(should),
    ensures
        update_plan(list, credentials, should, ipv4, ipv6).0.len() == 0,
    decreases list.len(),
{
    lemma_services_step_idle(list, credentials, should, ipv4, ipv6);
}

proof fn lemma_services_step_idle(
    list: Seq<ServiceSpecifications>,
    credentials: ServiceToAuthData,
    should: ShouldBeProcessed,
    ipv4: Option<Ipv4Address>,
    ipv6: Option<Ipv6Address>,
)
    requires
        accepts_none(should),
    ensures
        services_step((Seq::empty(), None), list, credentials, should, ipv4, ipv6) == (
            Seq::<UpdateRequestView>::empty(),
            None::<Error>,
        ),
    decreases list.len(),
{
    let st0: PlanState = (Seq::empty(), None);
    if list.len() > 0 {
        lemma_services_step_idle(list.drop_last(), credentials, should, ipv4, ipv6);
        match list.last() {
            ServiceSpecifications::GoDaddy(ds) => lemma_domains_step_idle::<
                godaddy::AuthenticationData,
                godaddy::RecordSpecification,
                godaddy::RecordSpecification,
                godaddy::Handler,
            >(st0, credentials.godaddy->0, ds@, should, ipv4, ipv6),
            ServiceSpecifications::YDns(ds) => lemma_domains_step_idle::<
                ydns::AuthenticationData,
                ydns::RecordSpecification,
                ydns::RecordSpecification,
                ydns::Handler,
            >(st0, credentials.ydns->0, ds@, should, ipv4, ipv6),
        }
    }
}

/// A configuration that asks for no record type gets a predicate that accepts
/// no family, so no address is needed, and it plans no provider call.
pub proof fn lemma_no_families_no_calls(
    list: Seq<ServiceSpecifications>,
    credentials: ServiceToAuthData,
    should: ShouldBeProcessed,
    ipv4: Option<Ipv4Address>,
    ipv6: Option<Ipv6Address>,
)
    requires
        record_types_of(list) == Set::<RecordType>::empty(),
        forall|t: RecordType| #[trigger] should.accepts(t) == record_types_of(list).contains(t),
    ensures
        !should.accepts(RecordType::A),
        !should.accepts(RecordType::AAAA),
        update_plan(list, credentials, should, ipv4, ipv6).0.len() == 0,
{
    assert(accepts_none(should));
    lemma_idle_plan_sends_nothing(list, credentials, should, ipv4, ipv6);
}

/// A family of the configuration whose resolved address equals the persisted
/// one drops out of the
/// changed families; a predicate built from them rejects it, so no planned
/// provider call updates a record of that family; and the state kept after
/// the run holds the persisted address for it unchanged.
pub proof fn lemma_unchanged_family_excluded(
    list: Seq<ServiceSpecifications>,
    credentials: ServiceToAuthData,
    persisted: IPs,
    resolver: IPs,
    t: RecordType,
    should: ShouldBeProcessed,
    ipv4: Option<Ipv4Address>,
    ipv6: Option<Ipv6Address>,
)
    requires
        record_types_of(list).contains(t),
        has_address(persisted, t),
        match t {
            RecordType::A => persisted.ipv4 == resolver.ipv4,
            RecordType::AAAA => persisted.ipv6 == resolver.ipv6,
        },
        forall|u: RecordType| #[trigger] should.accepts(u) == changed_families(
            record_types_of(list),
            Some(persisted),
            resolved_pair(record_types_of(list), resolver),
        ).contains(u),
    ensures
        !changed_families(
            record_types_of(list),
            Some(persisted),
            resolved_pair(record_types_of(list), resolver),
        ).contains(t),
        !should.accepts(t),
        forall|i: int|
            0 <= i < update_plan(list, credentials, should, ipv4, ipv6).0.len() ==> request_family(
                #[trigger] update_plan(list, credentials, should, ipv4, ipv6).0[i],
            ) != t,
        persisted_after(list, Some(persisted), resolver) matches Some(p) && match t {
            RecordType::A => p.ipv4 == persisted.ipv4,
            RecordType::AAAA => p.ipv6 == persisted.ipv6,
        },
{
    lemma_plan_families_accepted(list, credentials, should, ipv4, ipv6);
    let plan = update_plan(list, credentials, should, ipv4, ipv6).0;
    assert forall|i: int| 0 <= i < plan.len() implies request_family(#[trigger] plan[i]) != t by {
        assert(should.accepts(request_family(plan[i])));
    }
}

/// What a run leaves persisted when all its calls succeed (what
/// `ips_to_persist` returns): nothing new when no family changed, else the
/// addresses it resolved.
pub open spec fn persisted_after(
    list: Seq<ServiceSpecifications>,
    persisted: Option<IPs>,
    resolver: IPs,
) -> Option<IPs> {
    let records = record_types_of(list);
    let resolved = resolved_pair(records, resolver);
    if changed_families(records, persisted, resolved) == Set::<RecordType>::empty() {
        persisted
    } else {
        Some(resolved)
    }
}

/// What a run saves once all its calls were sent: nothing new (`persisted`)
/// when no family changed, else the addresses resolved for the families the
/// configuration uses.
pub fn ips_to_persist(
    dns_entries: &Vec<ServiceSpecifications>,
    persisted: &Option<IPs>,
    resolved: &IPs,
) -> (r: Option<IPs>)
    ensures
        r == (if changed_families(
            record_types_of(dns_entries@),
            *persisted,
            resolved_pair(record_types_of(dns_entries@), *resolved),
        ) == Set::<RecordType>::empty() {
            *persisted
        } else {
            Some(resolved_pair(record_types_of(dns_entries@), *resolved))
        }),
        r == persisted_after(dns_entries@, *persisted, *resolved),
{
    let records = collect_record_types(dns_entries);
    let pair = IPs {
        ipv4: if records.contains(RecordType::A) {
            resolved.ipv4
        } else {
            None
        },
        ipv6: if records.contains(RecordType::AAAA) {
            resolved.ipv6
        } else {
            None
        },
    };
    let mut changed = records;
    remove_unchanged(&mut changed, persisted, &pair);
    proof {
        lemma_at_most_two_families(changed);
    }
    if changed.is_empty() {
        assert(changed@ =~= Set::<RecordType>::empty());
        *persisted
    } else {
        assert(changed@ != Set::<RecordType>::empty()) by {
            if changed@ == Set::<RecordType>::empty() {
                assert(changed@.len() == 0);
            }
        }
        Some(pair)
    }
}

/// Every request of a sequence updates a family the predicate accepts.
pub open spec fn families_accepted(s: Seq<UpdateRequestView>, should: ShouldBeProcessed) -> bool {
    forall|i: int| 0 <= i < s.len() ==> should.accepts(request_family(#[trigger] s[i]))
}

/// The handler's IPv4 updates touch A records and its IPv6 updates AAAA
/// records.
pub open spec fn handler_keeps_families<A, V4, V6, H: UpdateHandler<A, V4, V6>>() -> bool {
    &&& forall|a: A, sp: V4, d: Seq<char>, h: Seq<char>, ip: Ipv4Address|
        #[trigger] H::ipv4_update(a, sp, d, h, ip) is Ok ==> request_family(
            H::ipv4_update(a, sp, d, h, ip)->Ok_0,
        ) == RecordType::A
    &&& forall|
        a: A,
        sp: RecordSpecificationV6Adapter<V6>,
        d: Seq<char>,
        h: Seq<char>,
        ip: Ipv6Address,
    |
        #[trigger] H::ipv6_update(a, sp, d, h, ip) is Ok ==> request_family(
            H::ipv6_update(a, sp, d, h, ip)->Ok_0,
        ) == RecordType::AAAA
}

proof fn lemma_hosts_step_families<A, V4, V6, H: UpdateHandler<A, V4, V6>>(
    st: PlanState,
    auth: A,
    domain: Seq<char>,
    hosts: Seq<HostSpecifications<V4, V6>>,
    should: ShouldBeProcessed,
    ipv4: Option<Ipv4Address>,
    ipv6: Option<Ipv6Address>,
)
    requires
        families_accepted(st.0, should),
        handler_keeps_families::<A, V4, V6, H>(),
    ensures
        families_accepted(hosts_step::<A, V4, V6, H>(st, auth, domain, hosts, should, ipv4, ipv6).0, should),
    decreases hosts.len(),
{
    if hosts.len() > 0 {
        lemma_hosts_step_families::<A, V4, V6, H>(st, auth, domain, hosts.drop_last(), should, ipv4, ipv6);
        let s0 = hosts_step::<A, V4, V6, H>(st, auth, domain, hosts.drop_last(), should, ipv4, ipv6);
        let host = hosts.last();
        let s1 = if host.ipv4 is Some && should.accepts(RecordType::A) {
            absorb(s0, H::ipv4_update(auth, host.ipv4->0, domain, host.host_name@, ipv4->0))
        } else {
            s0
        };
        assert(families_accepted(s1.0, should)) by {
            if host.ipv4 is Some && should.accepts(RecordType::A) && s0.1 is None {
                let res = H::ipv4_update(auth, host.ipv4->0, domain, host.host_name@, ipv4->0);
                if res is Ok {
                    assert(s1.0 == s0.0.push(res->Ok_0));
                    assert forall|i: int| 0 <= i < s1.0.len() implies should.accepts(request_family(#[trigger] s1.0[i])) by {
                        if i < s0.0.len() {
                            assert(s1.0[i] == s0.0[i]);
                        }
                    }
                }
            }
        }
        if host.ipv6 is Some && should.accepts(RecordType::AAAA) && s1.1 is None {
            let res = H::ipv6_update(auth, host.ipv6->0, domain, host.host_name@, ipv6->0);
            if res is Ok {
                let s2 = absorb(s1, res);
                assert(s2.0 == s1.0.push(res->Ok_0));
                assert forall|i: int| 0 <= i < s2.0.len() implies should.accepts(request_family(#[trigger] s2.0[i])) by {
                    if i < s1.0.len() {
                        assert(s2.0[i] == s1.0[i]);
                    }
                }
            }
        }
    }
}

proof fn lemma_domains_step_families<A, V4, V6, H: UpdateHandler<A, V4, V6>>(
    st: PlanState,
    auth: A,
    domains: Seq<DomainSpecifications<V4, V6>>,
    should: ShouldBeProcessed,
    ipv4: Option<Ipv4Address>,
    ipv6: Option<Ipv6Address>,
)
    requires
        families_accepted(st.0, should),
        handler_keeps_families::<A, V4, V6, H>(),
    ensures
        families_accepted(domains_step::<A, V4, V6, H>(st, auth, domains, should, ipv4, ipv6).0, should),
    decreases domains.len(),
{
    if domains.len() > 0 {
        lemma_domains_step_families::<A, V4, V6, H>(st, auth, domains.drop_last(), should, ipv4, ipv6);
        let d = domains.last();
        lemma_hosts_step_families::<A, V4, V6, H>(
            domains_step::<A, V4, V6, H>(st, auth, domains.drop_last(), should, ipv4, ipv6),
            auth,
            d.domain_name@,
            d.specifications@,
            should,
            ipv4,
            ipv6,
        );
    }
}

proof fn lemma_services_step_families(
    st: PlanState,
    list: Seq<ServiceSpecifications>,
    credentials: ServiceToAuthData,
    should: ShouldBeProcessed,
    ipv4: Option<Ipv4Address>,
    ipv6: Option<Ipv6Address>,
)
    requires
        families_accepted(st.0, should),
    ensures
        families_accepted(services_step(st, list, credentials, should, ipv4, ipv6).0, should),
    decreases list.len(),
{
    if list.len() > 0 {
        lemma_services_step_families(st, list.drop_last(), credentials, should, ipv4, ipv6);
        let s0 = services_step(st, list.drop_last(), credentials, should, ipv4, ipv6);
        assert(handler_keeps_families::<
            godaddy::AuthenticationData,
            godaddy::RecordSpecification,
            godaddy::RecordSpecification,
            godaddy::Handler,
        >());
        assert(handler_keeps_families::<
            ydns::AuthenticationData,
            ydns::RecordSpecification,
            ydns::RecordSpecification,
            ydns::Handler,
        >());
        if s0.1 is None {
            match list.last() {
                ServiceSpecifications::GoDaddy(ds) => lemma_domains_step_families::<
                    godaddy::AuthenticationData,
                    godaddy::RecordSpecification,
                    godaddy::RecordSpecification,
                    godaddy::Handler,
                >(s0, credentials.godaddy->0, ds@, should, ipv4, ipv6),
                ServiceSpecifications::YDns(ds) => lemma_domains_step_families::<
                    ydns::AuthenticationData,
                    ydns::RecordSpecification,
                    ydns::RecordSpecification,
                    ydns::Handler,
                >(s0, credentials.ydns->0, ds@, should, ipv4, ipv6),
            }
        }
    }
}

/// Every planned provider call updates a record of a family the predicate
/// accepts.
pub proof fn lemma_plan_families_accepted(
    list: Seq<ServiceSpecifications>,
    credentials: ServiceToAuthData,
    should: ShouldBeProcessed,
    ipv4: Option<Ipv4Address>,
    ipv6: Option<Ipv6Address>,
)
    ensures
        families_accepted(update_plan(list, credentials, should, ipv4, ipv6).0, should),
{
    lemma_services_step_families((Seq::empty(), None), list, credentials, should, ipv4, ipv6);
}

/// Running twice with no change of the real addresses: the second run finds
/// every needed family unchanged, so its predicate accepts nothing and it
/// causes no provider call.
pub proof fn lemma_second_run_is_idle(
    list: Seq<ServiceSpecifications>,
    credentials: ServiceToAuthData,
    persisted: Option<IPs>,
    resolver: IPs,
    should: ShouldBeProcessed,
    ipv4: Option<Ipv4Address>,
    ipv6: Option<Ipv6Address>,
)
    requires
        forall|t: RecordType| #[trigger] record_types_of(list).contains(t) ==> has_address(resolver, t),
        forall|t: RecordType| #[trigger] should.accepts(t) == changed_families(
            record_types_of(list),
            persisted_after(list, persisted, resolver),
            resolved_pair(record_types_of(list), resolver),
        ).contains(t),
    ensures
        changed_families(
            record_types_of(list),
            persisted_after(list, persisted, resolver),
            resolved_pair(record_types_of(list), resolver),
        ) == Set::<RecordType>::empty(),
        update_plan(list, credentials, should, ipv4, ipv6).0.len() == 0,
{
    let records = record_types_of(list);
    let resolved = resolved_pair(records, resolver);
    let changed = changed_families(records, persisted, resolved);
    if changed == Set::<RecordType>::empty() {
        assert forall|t: RecordType| !changed_families(records, persisted, resolved).contains(t) by {
            assert(!changed.contains(t));
        }
    }
    assert(changed_families(records, persisted_after(list, persisted, resolver), resolved) =~= Set::<
        RecordType,
    >::empty());
    assert(accepts_none(should));
    lemma_idle_plan_sends_nothing(list, credentials, should, ipv4, ipv6);
}

/// A service without a credential stops the run with an authentication
/// error before any provider call, whatever the other services would do,
/// also those listed before it; when every service before it has a
/// credential, the error names its provider.
pub proof fn lemma_missing_credential_sends_nothing(
    list: Seq<ServiceSpecifications>,
    credentials: ServiceToAuthData,
    should: ShouldBeProcessed,
    ipv4: Option<Ipv4Address>,
    ipv6: Option<Ipv6Address>,
    k: int,
)
    requires
        0 <= k < list.len(),
        !has_credential(credentials, service_of(list[k])),
    ensures
        update_plan(list, credentials, should, ipv4, ipv6).0.len() == 0,
        update_plan(list, credentials, should, ipv4, ipv6).1 matches Some(
            Error::AuthenticationError(_),
        ),
        (forall|m: int|
            0 <= m < k ==> has_credential(credentials, #[trigger] service_of(list[m])))
            ==> update_plan(list, credentials, should, ipv4, ipv6).1 == Some(
            Error::AuthenticationError(service_of(list[k])),
        ),
{
    lemma_error_in_prefix(list, credentials, k);
    lemma_missing_is_authentication(list, credentials);
    if forall|m: int| 0 <= m < k ==> has_credential(credentials, #[trigger] service_of(list[m])) {
        let p = list.subrange(0, k);
        assert forall|m: int| 0 <= m < p.len() implies #[trigger] stage_error(p[m], credentials, false) is None by {
            assert(p[m] == list[m]);
            assert(has_credential(credentials, service_of(list[m])));
        }
        lemma_no_error_in_prefix(p, credentials);
        let q = list.subrange(0, k + 1);
        assert(q.drop_last() =~= p);
        assert(q.last() == list[k]);
        lemma_first_service_error_stays(list, credentials, false, k + 1);
    }
}

/// At the credential stage every error is an authentication error.
proof fn lemma_missing_is_authentication(list: Seq<ServiceSpecifications>, credentials: ServiceToAuthData)
    ensures
        first_service_error(list, credentials, false) is Some ==> first_service_error(
            list,
            credentials,
            false,
        ) matches Some(Error::AuthenticationError(_)),
    decreases list.len(),
{
    if list.len() > 0 {
        lemma_missing_is_authentication(list.drop_last(), credentials);
    }
}

proof fn lemma_no_error_in_prefix(list: Seq<ServiceSpecifications>, credentials: ServiceToAuthData)
    requires
        forall|m: int| 0 <= m < list.len() ==> #[trigger] stage_error(list[m], credentials, false) is None,
    ensures
        first_service_error(list, credentials, false) is None,
    decreases list.len(),
{
    if list.len() > 0 {
        assert forall|m: int| 0 <= m < list.drop_last().len() implies #[trigger] stage_error(
            list.drop_last()[m],
            credentials,
            false,
        ) is None by {
            assert(list.drop_last()[m] == list[m]);
        }
        lemma_no_error_in_prefix(list.drop_last(), credentials);
        assert(stage_error(list[list.len() - 1], credentials, false) is None);
    }
}

proof fn lemma_error_in_prefix(list: Seq<ServiceSpecifications>, credentials: ServiceToAuthData, m: int)
    requires
        0 <= m < list.len(),
        !has_credential(credentials, service_of(list[m])),
    ensures
        first_service_error(list, credentials, false) is Some,
    decreases list.len(),
{
    if m < list.len() - 1 {
        assert(list.drop_last()[m] == list[m]);
        lemma_error_in_prefix(list.drop_last(), credentials, m);
    }
}

} // verus!
