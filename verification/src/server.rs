//! Addresses the service listens on and is reached at.

use vstd::prelude::*;

use crate::text::{decimal, decimal_string};

use url::{ParseError, Url};

verus! {

/// Declares `url::Url`; its values are opaque.
#[verifier::external_type_specification]
#[verifier::external_body]
pub struct ExUrl(Url);

/// Declares `url::ParseError`; its values are opaque.
#[verifier::external_type_specification]
#[verifier::external_body]
pub struct ExUrlParseError(ParseError);

/// Whether `url::Url::parse` accepts the text as an absolute URL: a
/// function of the text alone.
pub uninterp spec fn parses_as_url(s: Seq<char>) -> bool;

/// The URL `url::Url::parse` makes of a text it accepts: a function of the
/// text alone.
pub uninterp spec fn parsed_url(s: Seq<char>) -> Url;

/// Calls `url::Url::parse`, which parses an absolute URL and fails on any
/// other text.
#[verifier::external_body]
fn parse_url(s: &str) -> (r: Result<Url, ParseError>)
    ensures
        r is Ok <==> parses_as_url(s@),
        r matches Ok(u) ==> u == parsed_url(s@),
{
    Url::parse(s)
}

/// The address text `host:port`.
pub open spec fn address_spec(host: Seq<char>, port: u16) -> Seq<char> {
    host + ":"@ + decimal(port as nat)
}

/// The address text the server binds to: the host, a colon and the port.
pub fn server_address(host: &str, port: u16) -> (r: String)
    ensures
        r@ == address_spec(host@, port),
{
    let mut r = host.to_string();
    r.append(":");
    let p = decimal_string(port as u64);
    r.append(p.as_str());
    r
}

/// Where Telegram delivers updates: `/webhook` under the public URL.
pub fn webhook_url(public_url: &str) -> (r: String)
    ensures
        r@ == public_url@ + "/webhook"@,
{
    let mut r = public_url.to_string();
    r.append("/webhook");
    r
}

/// The webhook URL under the public URL, parsed; refused when it is not an
/// absolute URL.
pub fn webhook_target(public_url: &str) -> (r: Result<Url, ParseError>)
    ensures
        r is Ok <==> parses_as_url(public_url@ + "/webhook"@),
        r matches Ok(u) ==> u == parsed_url(public_url@ + "/webhook"@),
{
    let text = webhook_url(public_url);
    parse_url(text.as_str())
}

} // verus!
