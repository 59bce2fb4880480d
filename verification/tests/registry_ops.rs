use dapps::apps::{ui, ui_redirection, utils, URL_REFERER, UTILS_PATH, WEB_PATH};
use dapps::endpoint::{
    frame_policy, DiscoveredApp, Embeddable, Endpoint, FramePolicy, PageSource,
};
use dapps::apps::local_endpoint;
use dapps::registry::Registry;
use dapps::strfmt::u16_to_dec;

fn relay() -> Endpoint {
    Endpoint::WebRelay { ui_address: None }
}

fn redirection() -> Endpoint {
    Endpoint::Redirection { ui_address: None }
}

#[test]
fn new_registry_is_empty() {
    let r = Registry::new();
    assert_eq!(r.len(), 0);
    assert!(r.get("ui").is_none());
    assert!(!r.contains("ui"));
}

#[test]
fn insert_then_get_returns_endpoint() {
    let mut r = Registry::new();
    r.insert("a".to_string(), relay());
    assert_eq!(r.len(), 1);
    assert!(r.contains("a"));
    assert!(matches!(r.get("a"), Some(Endpoint::WebRelay { .. })));
    assert!(r.get("b").is_none());
}

#[test]
fn insert_overwrites_existing() {
    let mut r = Registry::new();
    r.insert("a".to_string(), relay());
    r.insert("a".to_string(), redirection());
    assert_eq!(r.len(), 1);
    assert!(matches!(r.get("a"), Some(Endpoint::Redirection { .. })));
}

#[test]
fn insert_if_absent_keeps_existing() {
    let mut r = Registry::new();
    r.insert("a".to_string(), relay());
    r.insert_if_absent("a".to_string(), redirection());
    assert_eq!(r.len(), 1);
    assert!(matches!(r.get("a"), Some(Endpoint::WebRelay { .. })));
}

#[test]
fn insert_if_absent_adds_missing() {
    let mut r = Registry::new();
    r.insert_if_absent("a".to_string(), redirection());
    assert_eq!(r.len(), 1);
    assert!(matches!(r.get("a"), Some(Endpoint::Redirection { .. })));
}

#[test]
fn frame_policy_no_is_deny() {
    assert!(matches!(frame_policy(&Embeddable::No), FramePolicy::Deny));
}

#[test]
fn frame_policy_yes_without_address_is_allow_any() {
    assert!(matches!(frame_policy(&Embeddable::Yes(None)), FramePolicy::AllowAny));
}

#[test]
fn frame_policy_yes_with_address_names_origin() {
    let p = frame_policy(&Embeddable::Yes(Some(("127.0.0.1".to_string(), 8180))));
    match p {
        FramePolicy::AllowFrom(host, port) => {
            assert_eq!(host, "127.0.0.1");
            assert_eq!(port, 8180);
        }
        _ => panic!("expected an origin-restricted policy"),
    }
}

#[test]
fn utils_is_prefixed_non_embeddable_page() {
    match utils() {
        Endpoint::Page { source, prefix, fallback_to_index, embeddable } => {
            assert!(matches!(source, PageSource::Builtin(ref n) if n == "ui"));
            assert_eq!(prefix.as_deref(), Some("parity-utils"));
            assert!(!fallback_to_index);
            assert!(matches!(embeddable, Embeddable::No));
        }
        _ => panic!("expected a page endpoint"),
    }
}

#[test]
fn ui_is_fallback_page() {
    match ui() {
        Endpoint::Page { source, prefix, fallback_to_index, .. } => {
            assert!(matches!(source, PageSource::Builtin(ref n) if n == "ui"));
            assert!(prefix.is_none());
            assert!(fallback_to_index);
        }
        _ => panic!("expected a page endpoint"),
    }
}

#[test]
fn ui_redirection_keeps_address() {
    match ui_redirection(Some(("localhost".to_string(), 8080))) {
        Endpoint::Redirection { ui_address } => {
            assert_eq!(ui_address, Some(("localhost".to_string(), 8080)));
        }
        _ => panic!("expected a redirection endpoint"),
    }
}

#[test]
fn local_endpoint_nothing_for_invalid_path() {
    assert!(local_endpoint(None, &None).is_none());
}

#[test]
fn local_endpoint_builds_local_page() {
    let app = DiscoveredApp { id: "wallet".to_string(), path: "/dapps/wallet".to_string() };
    let (id, endpoint) = local_endpoint(Some(app), &Some(("h".to_string(), 1))).unwrap();
    assert_eq!(id, "wallet");
    match endpoint {
        Endpoint::Page { source, prefix, fallback_to_index, embeddable } => {
            assert!(matches!(source, PageSource::Local(ref p) if p == "/dapps/wallet"));
            assert!(prefix.is_none());
            assert!(!fallback_to_index);
            assert!(matches!(embeddable, Embeddable::Yes(Some((ref h, 1))) if h == "h"));
        }
        _ => panic!("expected a page endpoint"),
    }
}

#[test]
fn reserved_identifier_constants() {
    assert_eq!(UTILS_PATH, "parity-utils");
    assert_eq!(WEB_PATH, "web");
    assert_eq!(URL_REFERER, "__referer=");
    assert_eq!(dapps::apps::HOME_PAGE, "home");
    assert_eq!(dapps::apps::RPC_PATH, "rpc");
    assert_eq!(dapps::apps::API_PATH, "api");
}

#[test]
fn decimal_rendering_exact() {
    assert_eq!(u16_to_dec(0), "0");
    assert_eq!(u16_to_dec(7), "7");
    assert_eq!(u16_to_dec(10), "10");
    assert_eq!(u16_to_dec(8180), "8180");
    assert_eq!(u16_to_dec(65535), "65535");
}
