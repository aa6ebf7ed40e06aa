//! What a request to the cloud service carries: the two addresses and the
//! value of the authorisation header.

use vstd::prelude::*;
use vstd::slice::slice_to_vec;
use vstd::string::StringSliceAdditionalSpecFns;

verus! {

/// The longest access token that a request can carry, in bytes.
pub const MAX_ACCESS_TOKEN_LEN: usize = 128;

/// The longest value of the authorisation header, in bytes.
pub const ACCESS_TOKEN_BEARER_LENGTH: usize = 7 + MAX_ACCESS_TOKEN_LEN;

/// Where the device list is read.
pub const DEVICES_URL: &'static str = "https://api.nature.global/1/devices";

/// Where the appliance list is read.
pub const APPLIANCES_URL: &'static str = "https://api.nature.global/1/appliances";

/// The value of the authorisation header for `access_token`: the word
/// `Bearer`, a space, and the token.
pub open spec fn spec_authorization_value(access_token: &str) -> Seq<u8> {
    "Bearer ".spec_bytes() + access_token.spec_bytes()
}

/// Builds the value of the authorisation header; `None` when the token is
/// longer than a request can carry.
pub fn authorization_value(access_token: &str) -> (r: Option<Vec<u8>>)
    ensures
        match r {
            Some(value) => access_token.spec_bytes().len() <= MAX_ACCESS_TOKEN_LEN && value@
                == spec_authorization_value(access_token),
            None => access_token.spec_bytes().len() > MAX_ACCESS_TOKEN_LEN,
        },
{
    let token = access_token.as_bytes();
    if token.len() > MAX_ACCESS_TOKEN_LEN {
        return None;
    }
    let mut value: Vec<u8> = slice_to_vec("Bearer ".as_bytes());
    value.extend_from_slice(token);
    assert(value@ =~= spec_authorization_value(access_token));
    Some(value)
}

} // verus!
