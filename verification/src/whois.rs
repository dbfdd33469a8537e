//! The handle to the whois resolver's server list, which only the
//! `whois_rust` crate can build.
use vstd::prelude::*;

verus! {

/// `whois_rust::WhoIs` carried opaquely: the server list the whois
/// resolver will query.
#[verifier::external_type_specification]
#[verifier::external_body]
pub struct ExWhoIs(whois_rust::WhoIs);

/// Relies on `whois_rust::WhoIs::from_path`: reads a WHOIS server list
/// (JSON) from a file. The outcome depends on what is on disk, so nothing
/// is stated of the result; callers handle both cases.
#[verifier::external_body]
pub(crate) fn whois_from_path(path: &str) -> (r: Option<whois_rust::WhoIs>) {
    whois_rust::WhoIs::from_path(path).ok()
}

} // verus!
