use vstd::prelude::*;

pub mod authority;
pub mod handler;

pub use authority::{Authority, DnsData, DnsRecord, DnsRecordView, Request, RequestView};
pub use handler::Handler;

verus! {

/// The GoDaddy record specification: the time to live of the record.
#[derive(PartialEq, Eq, Structural, Clone, Copy, Debug)]
pub struct RecordSpecification {
    pub ttl: u32,
}

pub type SpecificationV4 = RecordSpecification;

pub type SpecificationV6 = RecordSpecification;

/// Why the GoDaddy handler refuses work.
#[derive(PartialEq, Eq, Structural, Clone, Copy, Debug)]
pub enum Error {
    /// A fixed IPv6 interface identifier was asked for; GoDaddy updates do not
    /// support one.
    NotImplemented,
    /// The API address of the credential is not a valid URL.
    InvalidUrl,
    /// The API key and secret do not make a valid Authorization header.
    InvalidHeader,
}

impl Error {
    pub fn message(&self) -> &'static str {
        match self {
            Error::NotImplemented => "No support for hard coded interface identifiers yet.",
            Error::InvalidUrl => "The GoDaddy API address is not a valid URL.",
            Error::InvalidHeader => "The GoDaddy API key or secret is not a valid header value.",
        }
    }
}

/// One of GoDaddy's own API endpoints.
#[derive(PartialEq, Eq, Structural, Clone, Copy, Debug)]
pub enum PredefinedUrl {
    /// The test environment.
    OTE,
    /// The production environment.
    PRODUCTION,
}

/// Where GoDaddy's API is reached.
#[derive(Debug)]
pub enum ApiUrl {
    PredefinedUrl(PredefinedUrl),
    /// The text of a URL given in the configuration.
    CustomUrl(String),
}

/// The credentials of a GoDaddy account.
#[derive(Debug)]
pub struct AuthenticationData {
    pub api_key: String,
    pub api_secret: String,
    pub api_url: ApiUrl,
}

/// The address text of a predefined endpoint.
pub open spec fn predefined_url_text(u: PredefinedUrl) -> Seq<char> {
    match u {
        PredefinedUrl::OTE => "https://api.ote-godaddy.com"@,
        PredefinedUrl::PRODUCTION => "https://api.godaddy.com"@,
    }
}

pub open spec fn api_url_text(u: ApiUrl) -> Seq<char> {
    match u {
        ApiUrl::PredefinedUrl(p) => predefined_url_text(p),
        ApiUrl::CustomUrl(s) => s@,
    }
}

/// What `url::Url::parse` makes of a text: its serialization, or nothing
/// when the text is no valid URL.
pub uninterp spec fn url_serialization(s: Seq<char>) -> Option<Seq<char>>;

/// Relies on `url::Url::parse` and `Url`'s `Display`: parsing depends on the
/// text alone, and a parsed URL displays as its serialization.
#[verifier::external_body]
fn serialize_url(s: &str) -> (r: Option<String>)
    ensures
        r is Some <==> url_serialization(s@) is Some,
        r matches Some(t) ==> url_serialization(s@) == Some(t@),
{
    match url::Url::parse(s) {
        Ok(u) => Some(u.to_string()),
        Err(_) => None,
    }
}

/// The URL of an API address, as the requests use it.
pub open spec fn api_url_serialization(u: ApiUrl) -> Result<Seq<char>, Error> {
    match url_serialization(api_url_text(u)) {
        Some(t) => Ok(t),
        None => Err(Error::InvalidUrl),
    }
}

impl PredefinedUrl {
    pub fn as_str(&self) -> (r: &'static str)
        ensures
            r@ == predefined_url_text(*self),
    {
        match self {
            PredefinedUrl::OTE => "https://api.ote-godaddy.com",
            PredefinedUrl::PRODUCTION => "https://api.godaddy.com",
        }
    }
}

impl ApiUrl {
    /// The URL text that this address stands for.
    pub fn as_str(&self) -> (r: &str)
        ensures
            r@ == api_url_text(*self),
    {
        match self {
            ApiUrl::PredefinedUrl(p) => p.as_str(),
            ApiUrl::CustomUrl(s) => s.as_str(),
        }
    }

    /// The parsed URL, in its serialization.
    pub fn to_url(&self) -> (r: Result<String, Error>)
        ensures
            r is Ok <==> api_url_serialization(*self) is Ok,
            r matches Ok(t) ==> api_url_serialization(*self) == Ok::<Seq<char>, Error>(t@),
            r matches Err(e) ==> api_url_serialization(*self) == Err::<Seq<char>, Error>(e),
    {
        match serialize_url(self.as_str()) {
            Some(t) => Ok(t),
            None => Err(Error::InvalidUrl),
        }
    }
}

} // verus!
