//! The redirection endpoint: a stateless responder that answers every
//! request with a redirect to the configured UI address.

use vstd::prelude::*;

use crate::endpoint::addr_view;
use crate::strfmt::{dec_digits, u16_to_dec};

verus! {

/// `host:port` as characters.
pub open spec fn host_port_chars(host: Seq<char>, port: u16) -> Seq<char> {
    host + ":"@ + dec_digits(port as nat)
}

/// The gateway-reachable UI address as characters: the configured address,
/// or the default local one when none was configured.
pub open spec fn address_chars(a: Option<(Seq<char>, u16)>) -> Seq<char> {
    match a {
        Some(p) => host_port_chars(p.0, p.1),
        None => host_port_chars("127.0.0.1"@, 8180),
    }
}

/// The redirect target every request is answered with.
pub open spec fn redirect_location(a: Option<(Seq<char>, u16)>) -> Seq<char> {
    "http://"@ + address_chars(a) + "/"@
}

/// Renders the UI address, falling back to the default local address.
pub fn address_string(a: &Option<(String, u16)>) -> (r: String)
    ensures
        r@ == address_chars(addr_view(*a)),
{
    let mut s: String = match a {
        Some(p) => p.0.clone(),
        None => "127.0.0.1".to_owned(),
    };
    let port: u16 = match a {
        Some(p) => p.1,
        None => 8180,
    };
    s.append(":");
    let d = u16_to_dec(port);
    s.append(d.as_str());
    s
}

/// A redirect answer: the status line and the target location.
pub struct RedirectResponse {
    pub status: u16,
    pub location: String,
}

/// Answers any request with a redirect to the UI address; the requested
/// path plays no part in the target.
pub fn serve_redirection(ui_address: &Option<(String, u16)>, _path: &str) -> (r: RedirectResponse)
    ensures
        r.status == 302,
        r.location@ == redirect_location(addr_view(*ui_address)),
{
    let mut loc = "http://".to_owned();
    let addr = address_string(ui_address);
    loc.append(addr.as_str());
    loc.append("/");
    RedirectResponse { status: 302, location: loc }
}

} // verus!
