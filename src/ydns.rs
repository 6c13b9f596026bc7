use vstd::prelude::*;

pub mod handler;

pub use handler::{replace_interface_id, Handler, Request, RequestView};

verus! {

/// The YDns record specification; YDns takes no per-record settings.
#[derive(PartialEq, Eq, Structural, Clone, Copy, Debug)]
pub struct RecordSpecification {}

pub type SpecificationV4 = RecordSpecification;

pub type SpecificationV6 = RecordSpecification;

/// The credentials of a YDns account.
#[derive(Debug)]
pub struct AuthenticationData {
    pub username: String,
    pub secret: String,
}

} // verus!
