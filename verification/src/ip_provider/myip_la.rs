//! The lookup service at `api.myip.la`, which answers with the address
//! alone, IPv4 or IPv6 as the network has it.

use vstd::prelude::*;

use super::LookupError;

verus! {

/// Where the service is asked.
pub const URL: &'static str = "https://api.myip.la";

/// The address in the service's answer: the answer as it stands.
pub fn get_ip(response: String) -> (r: Result<String, LookupError>)
    ensures
        r == Ok::<String, LookupError>(response),
{
    Ok(response)
}

} // verus!
