//! The proxy-auto-config endpoint: a deterministic script generator keyed
//! by the configuration captured at construction.

use vstd::prelude::*;

use crate::endpoint::addr_view;
use crate::redirect::{address_chars, address_string};

verus! {

/// The whole script: traffic for `domain` and its subdomains is sent
/// through the gateway's own address, everything else goes direct.
pub open spec fn pac_script_chars(domain: Seq<char>, a: Option<(Seq<char>, u16)>) -> Seq<char> {
    "function FindProxyForURL(url, host) {\n\tif (shExpMatch(host, \"*."@ + domain
        + "\"))\n\t{\n\t\treturn \"PROXY "@ + address_chars(a)
        + "\";\n\t}\n\n\treturn \"DIRECT\";\n}\n"@
}

/// Generates the proxy-auto-config script for the routing domain.
pub fn proxy_pac_script(dapps_domain: &str, ui_address: &Option<(String, u16)>) -> (r: String)
    ensures
        r@ == pac_script_chars(dapps_domain@, addr_view(*ui_address)),
{
    let mut s = "function FindProxyForURL(url, host) {\n\tif (shExpMatch(host, \"*.".to_owned();
    s.append(dapps_domain);
    s.append("\"))\n\t{\n\t\treturn \"PROXY ");
    let addr = address_string(ui_address);
    s.append(addr.as_str());
    s.append("\";\n\t}\n\n\treturn \"DIRECT\";\n}\n");
    s
}

} // verus!
