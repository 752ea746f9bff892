//! The URL that hands the flow over to the browser.

use vstd::prelude::*;
use vstd::string::StringExecFns;
use crate::numeral::{decimal_text, spec_decimal};

verus! {

/// The page that the browser is sent to: a fixed address, with the token and
/// the port of the local listener as its two query parameters. The token
/// stands in it as it is.
pub open spec fn spec_handoff_url(token: Seq<char>, port: u16) -> Seq<char> {
    "https://app.oppla.ai/home/ide?token="@ + token + "&callback_port="@ + spec_decimal(
        port as nat,
    )
}

/// Builds the URL that is opened in the browser for the bearer token `token`
/// and a listener bound to `port`. Any text is accepted as a token.
pub fn handoff_url(token: &str, port: u16) -> (url: String)
    ensures
        url@ == spec_handoff_url(token@, port),
{
    let mut url = String::from_str("https://app.oppla.ai/home/ide?token=");
    url.append(token);
    url.append("&callback_port=");
    let digits = decimal_text(port as u64);
    url.append(digits.as_str());
    url
}

} // verus!
