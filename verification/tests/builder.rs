use dapps::apps::{all_endpoints, local_endpoints};
use dapps::endpoint::{DiscoveredApp, Endpoint, PageSource};

fn app(id: &str, path: &str) -> DiscoveredApp {
    DiscoveredApp { id: id.to_string(), path: path.to_string() }
}

fn local_path(e: &Endpoint) -> &str {
    match e {
        Endpoint::Page { source: PageSource::Local(p), .. } => p,
        _ => panic!("expected a filesystem-discovered page"),
    }
}

#[test]
fn discovery_wins_over_builtin() {
    let r = all_endpoints(
        vec![app("ui", "/dapps/my-ui")],
        Vec::new(),
        "web3.site".to_string(),
        Some(("127.0.0.1".to_string(), 8180)),
    );
    assert_eq!(local_path(r.get("ui").unwrap()), "/dapps/my-ui");
}

#[test]
fn every_overlapping_identifier_resolves_to_discovery() {
    let r = all_endpoints(
        vec![app("ui", "/d/ui"), app("proxy", "/d/proxy"), app("web", "/d/web"), app(
            "parity-utils",
            "/d/utils",
        )],
        Vec::new(),
        "web3.site".to_string(),
        None,
    );
    assert_eq!(local_path(r.get("ui").unwrap()), "/d/ui");
    assert_eq!(local_path(r.get("proxy").unwrap()), "/d/proxy");
    assert_eq!(local_path(r.get("web").unwrap()), "/d/web");
    assert_eq!(local_path(r.get("parity-utils").unwrap()), "/d/utils");
    assert_eq!(r.len(), 4);
}

#[test]
fn extra_path_overrides_root_discovery() {
    let r = all_endpoints(
        vec![app("wallet", "/root/wallet")],
        vec![Some(app("wallet", "/extra/wallet"))],
        "web3.site".to_string(),
        None,
    );
    assert_eq!(local_path(r.get("wallet").unwrap()), "/extra/wallet");
}

#[test]
fn later_extra_path_overrides_earlier() {
    let r = all_endpoints(
        Vec::new(),
        vec![Some(app("wallet", "/extra/one")), Some(app("wallet", "/extra/two"))],
        "web3.site".to_string(),
        None,
    );
    assert_eq!(local_path(r.get("wallet").unwrap()), "/extra/two");
}

#[test]
fn builtins_complete_when_unclaimed() {
    let r = all_endpoints(
        vec![app("wallet", "/d/wallet")],
        Vec::new(),
        "web3.site".to_string(),
        Some(("127.0.0.1".to_string(), 8180)),
    );
    match r.get("ui").unwrap() {
        Endpoint::Page { source: PageSource::Builtin(name), .. } => assert_eq!(name, "ui"),
        _ => panic!("expected the built-in UI page"),
    }
    match r.get("parity-utils").unwrap() {
        Endpoint::Page { prefix, .. } => assert_eq!(prefix.as_deref(), Some("parity-utils")),
        _ => panic!("expected the built-in utility page"),
    }
    match r.get("proxy").unwrap() {
        Endpoint::ProxyPac { dapps_domain, .. } => assert_eq!(dapps_domain, "web3.site"),
        _ => panic!("expected the proxy-auto-config endpoint"),
    }
    assert!(matches!(r.get("web").unwrap(), Endpoint::WebRelay { .. }));
    assert_eq!(r.len(), 5);
}

#[test]
fn malformed_extra_is_skipped_not_fatal() {
    let r = all_endpoints(
        Vec::new(),
        vec![Some(app("one", "/e/one")), None, Some(app("two", "/e/two"))],
        "web3.site".to_string(),
        None,
    );
    assert_eq!(local_path(r.get("one").unwrap()), "/e/one");
    assert_eq!(local_path(r.get("two").unwrap()), "/e/two");
    // the two valid extras plus the four built-ins, nothing for the invalid path
    assert_eq!(r.len(), 6);
}

#[test]
fn rebuild_from_unchanged_inputs_is_identical() {
    let build = || {
        all_endpoints(
            vec![app("wallet", "/d/wallet"), app("chat", "/d/chat")],
            vec![Some(app("extra", "/e/extra")), None],
            "web3.site".to_string(),
            Some(("localhost".to_string(), 8180)),
        )
    };
    let r1 = build();
    let r2 = build();
    assert_eq!(r1.len(), r2.len());
    for id in ["wallet", "chat", "extra", "ui", "parity-utils", "proxy", "web", "absent"] {
        assert_eq!(r1.contains(id), r2.contains(id));
        match (r1.get(id), r2.get(id)) {
            (None, None) => {}
            (Some(Endpoint::Page { source: PageSource::Local(p1), .. }),
             Some(Endpoint::Page { source: PageSource::Local(p2), .. })) => assert_eq!(p1, p2),
            (Some(_), Some(_)) => {}
            _ => panic!("the two builds disagree on {}", id),
        }
    }
}

#[test]
fn empty_discovery_gives_exactly_the_builtins() {
    let r = all_endpoints(Vec::new(), Vec::new(), "web3.site".to_string(), None);
    assert_eq!(r.len(), 4);
    for id in ["ui", "parity-utils", "proxy", "web"] {
        assert!(r.contains(id));
    }
    assert!(!r.contains("home"));
}

#[test]
fn root_discovery_keeps_every_bundle() {
    let r = local_endpoints(
        vec![app("a", "/d/a"), app("b", "/d/b")],
        &None,
    );
    assert_eq!(r.len(), 2);
    assert_eq!(local_path(r.get("a").unwrap()), "/d/a");
    assert_eq!(local_path(r.get("b").unwrap()), "/d/b");
}
