//! The two fixed authorization-server requests.
//!
//! The code-request body is a constant; the token-poll body embeds the device
//! code received from the server, quoted as a JSON string literal.  The host
//! sends each body with `Content-Type: application/json` by POST to the
//! matching endpoint.

use vstd::prelude::*;
use vstd::string::StringExecFns;

use crate::json::json_quote;
use crate::json::json_quoted;

verus! {

pub open spec fn code_request_url_spec() -> Seq<char> {
    "https://auth.iasql.com/oauth/device/code"@
}

pub open spec fn token_poll_url_spec() -> Seq<char> {
    "https://auth.iasql.com/oauth/token"@
}

pub open spec fn code_request_body_spec() -> Seq<char> {
    "{\"client_id\": \"FWIYK0GhLdMCLid0hxjmEEwxaifdAkpQ\",\"scope\": \"openid+profile+offline_access\",\"audience\": \"https://api.iasql.com\"}"@
}

pub open spec fn poll_request_body_spec(device_code: Seq<char>) -> Seq<char> {
    "{\"client_id\":\"FWIYK0GhLdMCLid0hxjmEEwxaifdAkpQ\",\"device_code\":"@
        + json_quoted(device_code)
        + ",\"grant_type\":\"urn:ietf:params:oauth:grant-type:device_code\"}"@
}

/// Endpoint that exchanges the client id for a device-code grant.
pub fn code_request_url() -> (r: &'static str)
    ensures
        r@ == code_request_url_spec(),
{
    "https://auth.iasql.com/oauth/device/code"
}

/// Endpoint that is polled until the user confirms the device code.
pub fn token_poll_url() -> (r: &'static str)
    ensures
        r@ == token_poll_url_spec(),
{
    "https://auth.iasql.com/oauth/token"
}

/// Body of the code request: fixed client id, scopes and audience.
pub fn code_request_body() -> (r: String)
    ensures
        r@ == code_request_body_spec(),
{
    "{\"client_id\": \"FWIYK0GhLdMCLid0hxjmEEwxaifdAkpQ\",\"scope\": \"openid+profile+offline_access\",\"audience\": \"https://api.iasql.com\"}".to_owned()
}

/// Body of a token poll: fixed client id and grant type, plus the device code
/// of the grant being polled.
pub fn token_poll_request_body(device_code: &str) -> (r: String)
    ensures
        r@ == poll_request_body_spec(device_code@),
{
    let mut body = "{\"client_id\":\"FWIYK0GhLdMCLid0hxjmEEwxaifdAkpQ\",\"device_code\":".to_owned();
    let quoted = json_quote(device_code);
    body.append(quoted.as_str());
    body.append(",\"grant_type\":\"urn:ietf:params:oauth:grant-type:device_code\"}");
    proof {
        assert(body@ =~= poll_request_body_spec(device_code@));
    }
    body
}

} // verus!
