use vstd::prelude::*;

use crate::record_type::{record_type_name, IpAddress, Ipv4Address, Ipv6Address, RecordType};

verus! {

/// The value a GoDaddy record carries.
#[derive(PartialEq, Eq, Structural, Clone, Copy, Debug)]
pub enum DnsData {
    IpAddress(IpAddress),
}

/// A DNS record as GoDaddy's API takes it.
#[derive(Debug)]
pub struct DnsRecord {
    pub name: String,
    pub type_: RecordType,
    pub data: DnsData,
    pub ttl: u32,
}

pub struct DnsRecordView {
    pub name: Seq<char>,
    pub type_: RecordType,
    pub data: DnsData,
    pub ttl: u32,
}

impl View for DnsRecord {
    type V = DnsRecordView;

    open spec fn view(&self) -> DnsRecordView {
        DnsRecordView { name: self.name@, type_: self.type_, data: self.data, ttl: self.ttl }
    }
}

impl DnsRecord {
    pub fn new(name: &str, type_: RecordType, data: DnsData, ttl: u32) -> (r: DnsRecord)
        ensures
            r@ == (DnsRecordView { name: name@, type_, data, ttl }),
    {
        DnsRecord { name: name.to_owned(), type_, data, ttl }
    }
}

/// A record update to send to GoDaddy: a PUT of `[record]` to `url`, with
/// `authorization` as the Authorization header.
#[derive(Debug)]
pub struct Request {
    pub url: String,
    pub authorization: String,
    pub record: DnsRecord,
}

pub struct RequestView {
    pub url: Seq<char>,
    pub authorization: Seq<char>,
    pub record: DnsRecordView,
}

impl View for Request {
    type V = RequestView;

    open spec fn view(&self) -> RequestView {
        RequestView { url: self.url@, authorization: self.authorization@, record: self.record@ }
    }
}

/// The Authorization header of an API key and secret.
pub open spec fn authorization_of(api_key: Seq<char>, api_secret: Seq<char>) -> Seq<char> {
    "sso-key "@ + api_key + ":"@ + api_secret
}

/// Whether a character may stand in an HTTP header value: a tab, or any
/// character from the space on but DEL. (Each byte of a multi-byte character
/// is 128 or more.)
pub open spec fn header_char_valid(c: char) -> bool {
    (c as u32 >= 32 && c as u32 != 127) || c == '\t'
}

pub open spec fn valid_header_value(s: Seq<char>) -> bool {
    forall|i: int| 0 <= i < s.len() ==> #[trigger] header_char_valid(s[i])
}

/// Relies on `reqwest::header::HeaderValue::from_str`: it accepts a text
/// exactly when each byte of its UTF-8 encoding is a tab, or is 32 or more
/// and not 127.
#[verifier::external_body]
pub(crate) fn is_valid_header_value(s: &str) -> (r: bool)
    ensures
        r == valid_header_value(s@),
{
    reqwest::header::HeaderValue::from_str(s).is_ok()
}

/// The address of the records of one type and name in a domain.
pub open spec fn record_url(
    api_url: Seq<char>,
    domain: Seq<char>,
    record_type: RecordType,
    name: Seq<char>,
) -> Seq<char> {
    api_url + "/v1/domains/"@ + domain + "/records/"@ + record_type_name(record_type) + "/"@ + name
}

/// The update of the record of `name` in `domain` to address `ip`.
pub open spec fn update_request(
    api_url: Seq<char>,
    authorization: Seq<char>,
    domain: Seq<char>,
    name: Seq<char>,
    ip: IpAddress,
    ttl: u32,
    record_type: RecordType,
) -> RequestView {
    RequestView {
        url: record_url(api_url, domain, record_type, name),
        authorization,
        record: DnsRecordView { name, type_: record_type, data: DnsData::IpAddress(ip), ttl },
    }
}

/// The Authorization header value of an API key and secret.
pub fn authorization_header(api_key: &str, api_secret: &str) -> (r: String)
    ensures
        r@ == authorization_of(api_key@, api_secret@),
{
    let mut authorization = "sso-key ".to_owned();
    authorization.append(api_key);
    authorization.append(":");
    authorization.append(api_secret);
    authorization
}

/// A GoDaddy API endpoint together with the credentials to use it.
#[derive(Debug)]
pub struct Authority {
    api_url: String,
    authorization: String,
}

impl Authority {
    pub closed spec fn spec_api_url(&self) -> Seq<char> {
        self.api_url@
    }

    pub closed spec fn spec_authorization(&self) -> Seq<char> {
        self.authorization@
    }

    /// An account at `api_url`; its key and secret must make a valid header.
    pub fn new(api_key: &str, api_secret: &str, api_url: String) -> (r: Authority)
        requires
            valid_header_value(authorization_of(api_key@, api_secret@)),
        ensures
            r.spec_api_url() == api_url@,
            r.spec_authorization() == authorization_of(api_key@, api_secret@),
            valid_header_value(r.spec_authorization()),
    {
        Authority { api_url, authorization: authorization_header(api_key, api_secret) }
    }

    /// The Authorization header value of this account.
    pub fn authorization(&self) -> (r: &str)
        ensures
            r@ == self.spec_authorization(),
    {
        self.authorization.as_str()
    }

    /// The address of the records of `record_type` named `name` in `domain`.
    pub fn record_url(&self, domain: &str, name: &str, record_type: RecordType) -> (r: String)
        ensures
            r@ == record_url(self.spec_api_url(), domain@, record_type, name@),
    {
        let mut url = self.api_url.clone();
        url.append("/v1/domains/");
        url.append(domain);
        url.append("/records/");
        url.append(record_type.name());
        url.append("/");
        url.append(name);
        assert(url@ =~= record_url(self.spec_api_url(), domain@, record_type, name@));
        url
    }

    pub fn update_ipv4_address(&self, domain: &str, name: &str, ip: &Ipv4Address, ttl: u32) -> (r:
        Request)
        ensures
            r@ == update_request(
                self.spec_api_url(),
                self.spec_authorization(),
                domain@,
                name@,
                IpAddress::V4(*ip),
                ttl,
                RecordType::A,
            ),
    {
        self.update_ip_address(domain, name, &IpAddress::V4(*ip), ttl, RecordType::A)
    }

    pub fn update_ipv6_address(&self, domain: &str, name: &str, ip: &Ipv6Address, ttl: u32) -> (r:
        Request)
        ensures
            r@ == update_request(
                self.spec_api_url(),
                self.spec_authorization(),
                domain@,
                name@,
                IpAddress::V6(*ip),
                ttl,
                RecordType::AAAA,
            ),
    {
        self.update_ip_address(domain, name, &IpAddress::V6(*ip), ttl, RecordType::AAAA)
    }

    fn update_ip_address(
        &self,
        domain: &str,
        name: &str,
        ip: &IpAddress,
        ttl: u32,
        record_type: RecordType,
    ) -> (r: Request)
        ensures
            r@ == update_request(
                self.spec_api_url(),
                self.spec_authorization(),
                domain@,
                name@,
                *ip,
                ttl,
                record_type,
            ),
    {
        let url = self.record_url(domain, name, record_type);
        let record = DnsRecord::new(name, record_type, DnsData::IpAddress(*ip), ttl);
        Request { url, authorization: self.authorization.clone(), record }
    }
}

} // verus!
