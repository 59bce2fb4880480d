use dapps::proxypac::proxy_pac_script;
use dapps::redirect::{address_string, serve_redirection};
use dapps::web::{relay_step, RelayAction, RelayEvent, RelayState};

#[test]
fn redirection_targets_configured_address() {
    let addr = Some(("127.0.0.1".to_string(), 8180));
    for path in ["", "/", "/any/page", "index.html"] {
        let r = serve_redirection(&addr, path);
        assert_eq!(r.status, 302);
        assert_eq!(r.location, "http://127.0.0.1:8180/");
    }
}

#[test]
fn redirection_falls_back_to_default_local_address() {
    let r = serve_redirection(&None, "/whatever");
    assert_eq!(r.status, 302);
    assert_eq!(r.location, "http://127.0.0.1:8180/");
}

#[test]
fn redirection_uses_host_and_port() {
    let r = serve_redirection(&Some(("example.test".to_string(), 80)), "/");
    assert_eq!(r.location, "http://example.test:80/");
}

#[test]
fn address_rendering_exact() {
    assert_eq!(address_string(&Some(("localhost".to_string(), 3000))), "localhost:3000");
    assert_eq!(address_string(&None), "127.0.0.1:8180");
}

#[test]
fn pac_script_routes_domain_through_gateway() {
    let script = proxy_pac_script("web3.site", &Some(("127.0.0.1".to_string(), 8180)));
    let expected = "function FindProxyForURL(url, host) {\n\tif (shExpMatch(host, \"*.web3.site\"))\n\t{\n\t\treturn \"PROXY 127.0.0.1:8180\";\n\t}\n\n\treturn \"DIRECT\";\n}\n";
    assert_eq!(script, expected);
}

#[test]
fn pac_script_uses_default_address_without_ui() {
    let script = proxy_pac_script("dapp", &None);
    assert!(script.contains("PROXY 127.0.0.1:8180"));
    assert!(script.contains("*.dapp"));
    assert!(script.contains("return \"DIRECT\";"));
}

#[test]
fn denied_token_never_fetches() {
    let (s1, a1) = relay_step(RelayState::Idle, RelayEvent::Request { authorized: false });
    assert_eq!(s1, RelayState::Rejected);
    assert_eq!(a1, RelayAction::RespondDenied);
    // whatever arrives afterwards, no fetch is ever started
    for e in [
        RelayEvent::FetchOk,
        RelayEvent::FetchErr,
        RelayEvent::Request { authorized: true },
    ] {
        let (s2, a2) = relay_step(s1, e);
        assert_eq!(s2, RelayState::Rejected);
        assert_eq!(a2, RelayAction::Ignore);
    }
}

#[test]
fn allowed_token_fetches_exactly_once() {
    let (s1, a1) = relay_step(RelayState::Idle, RelayEvent::Request { authorized: true });
    assert_eq!(s1, RelayState::Fetching);
    assert_eq!(a1, RelayAction::StartFetch);
    // a second request while fetching starts no second fetch
    let (s2, a2) = relay_step(s1, RelayEvent::Request { authorized: true });
    assert_eq!(s2, RelayState::Fetching);
    assert_eq!(a2, RelayAction::Ignore);
    let (s3, a3) = relay_step(s2, RelayEvent::FetchOk);
    assert_eq!(s3, RelayState::Delivered);
    assert_eq!(a3, RelayAction::RespondContent);
    let (s4, a4) = relay_step(s3, RelayEvent::Request { authorized: true });
    assert_eq!(s4, RelayState::Delivered);
    assert_eq!(a4, RelayAction::Ignore);
}

#[test]
fn fetch_failure_is_distinguishable() {
    let (s1, _) = relay_step(RelayState::Idle, RelayEvent::Request { authorized: true });
    let (s2, a2) = relay_step(s1, RelayEvent::FetchErr);
    assert_eq!(s2, RelayState::FetchFailed);
    assert_eq!(a2, RelayAction::RespondFetchError);
    assert_ne!(a2, RelayAction::RespondContent);
}
