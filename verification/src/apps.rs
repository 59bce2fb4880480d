//! Building the registry: filesystem-discovered bundles first, then
//! operator-supplied extra bundles, then built-ins through insert-if-absent,
//! so that discovered content is never silently overwritten by a default.

use vstd::prelude::*;

use crate::endpoint::{
    addr_view, clone_addr, DiscoveredApp, DiscoveredAppView, Embeddable, EmbeddableView, Endpoint,
    EndpointView, PageSource, PageSourceView,
};
use crate::registry::Registry;

verus! {

/// Identifier of the built-in home application.
pub const HOME_PAGE: &'static str = "home";

/// Path component reserved for the RPC endpoint.
pub const RPC_PATH: &'static str = "rpc";

/// Path component reserved for the API endpoint.
pub const API_PATH: &'static str = "api";

/// Identifier of the built-in utility pages.
pub const UTILS_PATH: &'static str = "parity-utils";

/// Identifier of the built-in web relay.
pub const WEB_PATH: &'static str = "web";

/// Query-parameter marker carrying the originally requested path through a
/// redirect hop.
pub const URL_REFERER: &'static str = "__referer=";

/// The endpoint a filesystem-discovered bundle becomes.
pub open spec fn local_page_view(app: DiscoveredAppView, ui: Option<(Seq<char>, u16)>) -> EndpointView {
    EndpointView::Page {
        source: PageSourceView::Local(app.path),
        prefix: None,
        fallback_to_index: false,
        embeddable: EmbeddableView::Yes(ui),
    }
}

/// The mapping produced by discovery over the dapps root: each bundle in
/// order, later records overriding earlier ones of the same identifier.
pub open spec fn local_pages_map(apps: Seq<DiscoveredAppView>, ui: Option<(Seq<char>, u16)>) -> Map<
    Seq<char>,
    EndpointView,
>
    decreases apps.len(),
{
    if apps.len() == 0 {
        Map::empty()
    } else {
        local_pages_map(apps.drop_last(), ui).insert(
            apps.last().id,
            local_page_view(apps.last(), ui),
        )
    }
}

/// Folding the extra-path discoveries into a base mapping: a valid bundle
/// overrides any earlier binding of its identifier, an invalid path (a
/// `None`) is skipped without effect.
pub open spec fn with_extras(
    m: Map<Seq<char>, EndpointView>,
    extras: Seq<Option<DiscoveredAppView>>,
    ui: Option<(Seq<char>, u16)>,
) -> Map<Seq<char>, EndpointView>
    decreases extras.len(),
{
    if extras.len() == 0 {
        m
    } else {
        let prev = with_extras(m, extras.drop_last(), ui);
        match extras.last() {
            Some(a) => prev.insert(a.id, local_page_view(a, ui)),
            None => prev,
        }
    }
}

/// Insert-only-if-missing: the one merge rule for built-ins.
pub open spec fn insert_if_absent_view(
    m: Map<Seq<char>, EndpointView>,
    k: Seq<char>,
    v: EndpointView,
) -> Map<Seq<char>, EndpointView> {
    if m.dom().contains(k) {
        m
    } else {
        m.insert(k, v)
    }
}

/// The built-in UI root endpoint, embeddable at the configured UI address.
pub open spec fn ui_builtin_view(ui: Option<(Seq<char>, u16)>) -> EndpointView {
    EndpointView::Page {
        source: PageSourceView::Builtin("ui"@),
        prefix: None,
        fallback_to_index: false,
        embeddable: EmbeddableView::Yes(ui),
    }
}

/// The built-in utility endpoint: the UI bundle served under a prefix,
/// never embeddable.
pub open spec fn utils_view() -> EndpointView {
    EndpointView::Page {
        source: PageSourceView::Builtin("ui"@),
        prefix: Some("parity-utils"@),
        fallback_to_index: false,
        embeddable: EmbeddableView::No,
    }
}

/// The stand-alone UI endpoint: the UI bundle with index fallback.
pub open spec fn ui_page_view() -> EndpointView {
    EndpointView::Page {
        source: PageSourceView::Builtin("ui"@),
        prefix: None,
        fallback_to_index: true,
        embeddable: EmbeddableView::No,
    }
}

/// The four built-ins, added through insert-if-absent in a fixed order.
pub open spec fn with_builtins(
    m: Map<Seq<char>, EndpointView>,
    domain: Seq<char>,
    ui: Option<(Seq<char>, u16)>,
) -> Map<Seq<char>, EndpointView> {
    let m1 = insert_if_absent_view(m, "ui"@, ui_builtin_view(ui));
    let m2 = insert_if_absent_view(m1, "parity-utils"@, utils_view());
    let m3 = insert_if_absent_view(
        m2,
        "proxy"@,
        EndpointView::ProxyPac { ui_address: ui, dapps_domain: domain },
    );
    insert_if_absent_view(m3, "web"@, EndpointView::WebRelay { ui_address: ui })
}

/// The image of a discovery record sequence.
pub open spec fn apps_view(v: Seq<DiscoveredApp>) -> Seq<DiscoveredAppView> {
    v.map_values(|a: DiscoveredApp| a@)
}

/// The image of a per-extra-path discovery outcome sequence.
pub open spec fn extras_view(v: Seq<Option<DiscoveredApp>>) -> Seq<Option<DiscoveredAppView>> {
    v.map_values(
        |o: Option<DiscoveredApp>|
            match o {
                Some(a) => Some(a@),
                None => None,
            },
    )
}

/// What the whole build denotes: discovery, then extras, then built-ins.
pub open spec fn all_endpoints_view(
    local: Seq<DiscoveredAppView>,
    extras: Seq<Option<DiscoveredAppView>>,
    domain: Seq<char>,
    ui: Option<(Seq<char>, u16)>,
) -> Map<Seq<char>, EndpointView> {
    with_builtins(with_extras(local_pages_map(local, ui), extras, ui), domain, ui)
}

/// The built-in utility pages endpoint.
pub fn utils() -> (r: Endpoint)
    ensures
        r@ == utils_view(),
{
    Endpoint::Page {
        source: PageSource::Builtin("ui".to_owned()),
        prefix: Some("parity-utils".to_owned()),
        fallback_to_index: false,
        embeddable: Embeddable::No,
    }
}

/// The stand-alone UI endpoint.
pub fn ui() -> (r: Endpoint)
    ensures
        r@ == ui_page_view(),
{
    Endpoint::Page {
        source: PageSource::Builtin("ui".to_owned()),
        prefix: None,
        fallback_to_index: true,
        embeddable: Embeddable::No,
    }
}

/// The endpoint used when the gateway is not the UI host: everything is
/// redirected to `ui_address`.
pub fn ui_redirection(ui_address: Option<(String, u16)>) -> (r: Endpoint)
    ensures
        r@ == (EndpointView::Redirection { ui_address: addr_view(ui_address) }),
{
    Endpoint::Redirection { ui_address }
}

/// Turns one extra path's discovery outcome into a registry entry: a valid
/// bundle yields its identifier and endpoint, an invalid path yields
/// nothing, never an error.
pub fn local_endpoint(app: Option<DiscoveredApp>, ui_address: &Option<(String, u16)>) -> (r: Option<
    (String, Endpoint),
>)
    ensures
        match app {
            Some(a) => (r matches Some(p) && p.0@ == a.id@ && p.1@ == local_page_view(
                a@,
                addr_view(*ui_address),
            )),
            None => r is None,
        },
{
    match app {
        Some(a) => {
            let DiscoveredApp { id, path } = a;
            Some(
                (
                    id,
                    Endpoint::Page {
                        source: PageSource::Local(path),
                        prefix: None,
                        fallback_to_index: false,
                        embeddable: Embeddable::Yes(clone_addr(ui_address)),
                    },
                ),
            )
        },
        None => None,
    }
}

/// Discovery over the dapps root: every valid bundle becomes an entry.
pub fn local_endpoints(apps: Vec<DiscoveredApp>, ui_address: &Option<(String, u16)>) -> (r:
    Registry)
    ensures
        r@ == local_pages_map(apps_view(apps@), addr_view(*ui_address)),
{
    let ghost u = addr_view(*ui_address);
    let ghost av = apps_view(apps@);
    let mut r = Registry::new();
    let n = apps.len();
    let mut i: usize = 0;
    while i < n
        invariant
            n == apps@.len(),
            i <= n,
            av == apps_view(apps@),
            u == addr_view(*ui_address),
            r@ == local_pages_map(av.take(i as int), u),
        decreases n - i,
    {
        let a = apps[i].duplicate();
        let DiscoveredApp { id, path } = a;
        r.insert(
            id,
            Endpoint::Page {
                source: PageSource::Local(path),
                prefix: None,
                fallback_to_index: false,
                embeddable: Embeddable::Yes(clone_addr(ui_address)),
            },
        );
        proof {
            assert(av[i as int] == apps@[i as int]@);
            assert(av.take(i + 1).drop_last() =~= av.take(i as int));
            assert(av.take(i + 1).last() == av[i as int]);
        }
        i += 1;
    }
    proof {
        assert(av.take(n as int) =~= av);
    }
    r
}

/// Builds the whole registry: discovery results over the dapps root first,
/// then each extra path's outcome, then the built-ins, which never
/// overwrite.  The returned mapping is exactly `all_endpoints_view` of the
/// inputs; a rebuild from unchanged inputs denotes the same mapping.
pub fn all_endpoints(
    local_apps: Vec<DiscoveredApp>,
    extra_dapps: Vec<Option<DiscoveredApp>>,
    dapps_domain: String,
    ui_address: Option<(String, u16)>,
) -> (r: Registry)
    ensures
        r@ == all_endpoints_view(
            apps_view(local_apps@),
            extras_view(extra_dapps@),
            dapps_domain@,
            addr_view(ui_address),
        ),
{
    let ghost u = addr_view(ui_address);
    let ghost ev = extras_view(extra_dapps@);
    // Discovery runs before any built-in insertion, so a bundle occupying a
    // reserved identifier wins.
    let mut pages = local_endpoints(local_apps, &ui_address);
    let ghost base = pages@;
    let n = extra_dapps.len();
    let mut i: usize = 0;
    while i < n
        invariant
            n == extra_dapps@.len(),
            i <= n,
            ev == extras_view(extra_dapps@),
            u == addr_view(ui_address),
            pages@ == with_extras(base, ev.take(i as int), u),
        decreases n - i,
    {
        let extra = match &extra_dapps[i] {
            Some(a) => Some(a.duplicate()),
            None => None,
        };
        match local_endpoint(extra, &ui_address) {
            Some(p) => {
                let (id, endpoint) = p;
                pages.insert(id, endpoint);
            },
            None => {},
        }
        proof {
            assert(ev[i as int] == extras_view(extra_dapps@)[i as int]);
            assert(ev.take(i + 1).drop_last() =~= ev.take(i as int));
            assert(ev.take(i + 1).last() == ev[i as int]);
        }
        i += 1;
    }
    proof {
        assert(ev.take(n as int) =~= ev);
    }
    pages.insert_if_absent(
        "ui".to_owned(),
        Endpoint::Page {
            source: PageSource::Builtin("ui".to_owned()),
            prefix: None,
            fallback_to_index: false,
            embeddable: Embeddable::Yes(clone_addr(&ui_address)),
        },
    );
    pages.insert_if_absent("parity-utils".to_owned(), utils());
    pages.insert_if_absent(
        "proxy".to_owned(),
        Endpoint::ProxyPac { ui_address: clone_addr(&ui_address), dapps_domain },
    );
    pages.insert_if_absent("web".to_owned(), Endpoint::WebRelay { ui_address });
    pages
}

/// Whether one extra-path outcome stays clear of an identifier.
pub open spec fn extra_free_of(o: Option<DiscoveredAppView>, id: Seq<char>) -> bool {
    match o {
        Some(b) => b.id != id,
        None => true,
    }
}

/// Whether one extra-path outcome produces an identifier.
spec fn extra_has_id(o: Option<DiscoveredAppView>, id: Seq<char>) -> bool {
    match o {
        Some(b) => b.id == id,
        None => false,
    }
}

/// One of the identifiers the built-ins occupy.
pub open spec fn reserved(k: Seq<char>) -> bool {
    k == "ui"@ || k == "parity-utils"@ || k == "proxy"@ || k == "web"@
}

/// Whether one extra-path outcome stays clear of every reserved identifier.
pub open spec fn extra_avoids_reserved(o: Option<DiscoveredAppView>) -> bool {
    match o {
        Some(b) => !reserved(b.id),
        None => true,
    }
}

/// Whether no discovery outcome produces a reserved identifier.
pub open spec fn avoids_reserved(
    local: Seq<DiscoveredAppView>,
    extras: Seq<Option<DiscoveredAppView>>,
) -> bool {
    (forall|i: int| 0 <= i < local.len() ==> !reserved(#[trigger] local[i].id)) && (forall|j: int|
        0 <= j < extras.len() ==> extra_avoids_reserved(#[trigger] extras[j]))
}

/// Discovered content is authoritative over defaults: adding the built-ins
/// never changes or removes a binding the discovery phases produced.
pub proof fn lemma_discovery_precedence(
    m: Map<Seq<char>, EndpointView>,
    domain: Seq<char>,
    ui: Option<(Seq<char>, u16)>,
    k: Seq<char>,
)
    requires
        m.dom().contains(k),
    ensures
        with_builtins(m, domain, ui).dom().contains(k),
        with_builtins(m, domain, ui)[k] == m[k],
{
}

/// Precedence: for any identifier bound after the discovery phases — root
/// discovery and extra paths — the final registry holds exactly that
/// binding, whether or not a built-in shares the identifier.
pub proof fn lemma_precedence(
    local: Seq<DiscoveredAppView>,
    extras: Seq<Option<DiscoveredAppView>>,
    domain: Seq<char>,
    ui: Option<(Seq<char>, u16)>,
    k: Seq<char>,
)
    requires
        with_extras(local_pages_map(local, ui), extras, ui).dom().contains(k),
    ensures
        all_endpoints_view(local, extras, domain, ui).dom().contains(k),
        all_endpoints_view(local, extras, domain, ui)[k] == with_extras(
            local_pages_map(local, ui),
            extras,
            ui,
        )[k],
{
    lemma_discovery_precedence(with_extras(local_pages_map(local, ui), extras, ui), domain, ui, k);
}

proof fn lemma_with_extras_override(
    m: Map<Seq<char>, EndpointView>,
    extras: Seq<Option<DiscoveredAppView>>,
    ui: Option<(Seq<char>, u16)>,
    i: int,
    a: DiscoveredAppView,
)
    requires
        0 <= i < extras.len(),
        extras[i] == Some(a),
        forall|j: int| i < j < extras.len() ==> extra_free_of(#[trigger] extras[j], a.id),
    ensures
        with_extras(m, extras, ui).dom().contains(a.id),
        with_extras(m, extras, ui)[a.id] == local_page_view(a, ui),
    decreases extras.len(),
{
    if i == extras.len() - 1 {
    } else {
        let e2 = extras.drop_last();
        assert(e2[i] == extras[i]);
        assert forall|j: int| i < j < e2.len() implies extra_free_of(#[trigger] e2[j], a.id) by {
            assert(e2[j] == extras[j]);
        }
        lemma_with_extras_override(m, e2, ui, i, a);
        assert(extra_free_of(extras[extras.len() - 1], a.id));
    }
}

/// Extra-path override: a valid bundle found at an extra path replaces any
/// earlier binding of its identifier, and survives into the final registry
/// when no later extra path rebinds the same identifier.
pub proof fn lemma_extra_path_override(
    local: Seq<DiscoveredAppView>,
    extras: Seq<Option<DiscoveredAppView>>,
    domain: Seq<char>,
    ui: Option<(Seq<char>, u16)>,
    i: int,
    a: DiscoveredAppView,
)
    requires
        0 <= i < extras.len(),
        extras[i] == Some(a),
        forall|j: int| i < j < extras.len() ==> extra_free_of(#[trigger] extras[j], a.id),
    ensures
        all_endpoints_view(local, extras, domain, ui).dom().contains(a.id),
        all_endpoints_view(local, extras, domain, ui)[a.id] == local_page_view(a, ui),
{
    lemma_with_extras_override(local_pages_map(local, ui), extras, ui, i, a);
    lemma_discovery_precedence(
        with_extras(local_pages_map(local, ui), extras, ui),
        domain,
        ui,
        a.id,
    );
}

proof fn lemma_local_pages_dom(
    apps: Seq<DiscoveredAppView>,
    ui: Option<(Seq<char>, u16)>,
    k: Seq<char>,
)
    requires
        local_pages_map(apps, ui).dom().contains(k),
    ensures
        exists|i: int| 0 <= i < apps.len() && apps[i].id == k,
    decreases apps.len(),
{
    if apps.last().id == k {
        assert(apps[apps.len() - 1].id == k);
    } else {
        lemma_local_pages_dom(apps.drop_last(), ui, k);
        let i = choose|i: int| 0 <= i < apps.drop_last().len() && apps.drop_last()[i].id == k;
        assert(apps[i].id == k);
    }
}

proof fn lemma_with_extras_dom(
    m: Map<Seq<char>, EndpointView>,
    extras: Seq<Option<DiscoveredAppView>>,
    ui: Option<(Seq<char>, u16)>,
    k: Seq<char>,
)
    requires
        with_extras(m, extras, ui).dom().contains(k),
        !m.dom().contains(k),
    ensures
        exists|j: int| 0 <= j < extras.len() && extra_has_id(#[trigger] extras[j], k),
    decreases extras.len(),
{
    if extra_has_id(extras.last(), k) {
        assert(extra_has_id(extras[extras.len() - 1], k));
    } else {
        lemma_with_extras_dom(m, extras.drop_last(), ui, k);
        let j = choose|j: int|
            0 <= j < extras.drop_last().len() && extra_has_id(#[trigger] extras.drop_last()[j], k);
        assert(extra_has_id(extras[j], k));
    }
}

/// Built-in completeness: when discovery produces none of the reserved
/// identifiers, all four built-ins stand in the final registry with their
/// expected endpoints.
pub proof fn lemma_builtin_completeness(
    local: Seq<DiscoveredAppView>,
    extras: Seq<Option<DiscoveredAppView>>,
    domain: Seq<char>,
    ui: Option<(Seq<char>, u16)>,
)
    requires
        avoids_reserved(local, extras),
    ensures
        ({
            let r = all_endpoints_view(local, extras, domain, ui);
            &&& r.dom().contains("ui"@) && r["ui"@] == ui_builtin_view(ui)
            &&& r.dom().contains("parity-utils"@) && r["parity-utils"@] == utils_view()
            &&& r.dom().contains("proxy"@) && r["proxy"@] == (EndpointView::ProxyPac {
                ui_address: ui,
                dapps_domain: domain,
            })
            &&& r.dom().contains("web"@) && r["web"@] == (EndpointView::WebRelay {
                ui_address: ui,
            })
        }),
{
    let m = with_extras(local_pages_map(local, ui), extras, ui);
    assert forall|k: Seq<char>| reserved(k) implies !m.dom().contains(k) by {
        if m.dom().contains(k) {
            if local_pages_map(local, ui).dom().contains(k) {
                lemma_local_pages_dom(local, ui, k);
                let i = choose|i: int| 0 <= i < local.len() && local[i].id == k;
                assert(!reserved(local[i].id));
            } else {
                lemma_with_extras_dom(local_pages_map(local, ui), extras, ui, k);
                let j = choose|j: int| 0 <= j < extras.len() && extra_has_id(#[trigger] extras[j], k);
                assert(extra_avoids_reserved(extras[j]));
            }
        }
    }
    reveal_strlit("ui");
    reveal_strlit("parity-utils");
    reveal_strlit("proxy");
    reveal_strlit("web");
    assert("ui"@.len() == 2 && "parity-utils"@.len() == 12 && "proxy"@.len() == 5 && "web"@.len()
        == 3);
    assert(reserved("ui"@) && reserved("parity-utils"@) && reserved("proxy"@) && reserved("web"@));
}

/// Skip-on-malformed: an invalid extra path — one whose discovery outcome
/// is `None` — contributes nothing to the build; the registry is the one
/// the remaining paths alone would give.
pub proof fn lemma_malformed_extra_skipped(
    local: Seq<DiscoveredAppView>,
    extras: Seq<Option<DiscoveredAppView>>,
    domain: Seq<char>,
    ui: Option<(Seq<char>, u16)>,
    i: int,
)
    requires
        0 <= i < extras.len(),
        extras[i] is None,
    ensures
        all_endpoints_view(local, extras, domain, ui) == all_endpoints_view(
            local,
            extras.remove(i),
            domain,
            ui,
        ),
{
    lemma_with_extras_remove_none(local_pages_map(local, ui), extras, ui, i);
}

proof fn lemma_with_extras_remove_none(
    m: Map<Seq<char>, EndpointView>,
    extras: Seq<Option<DiscoveredAppView>>,
    ui: Option<(Seq<char>, u16)>,
    i: int,
)
    requires
        0 <= i < extras.len(),
        extras[i] is None,
    ensures
        with_extras(m, extras, ui) == with_extras(m, extras.remove(i), ui),
    decreases extras.len(),
{
    if i == extras.len() - 1 {
        assert(extras.remove(i) =~= extras.drop_last());
    } else {
        lemma_with_extras_remove_none(m, extras.drop_last(), ui, i);
        assert(extras.remove(i).drop_last() =~= extras.drop_last().remove(i));
        assert(extras.remove(i).last() == extras.last());
    }
}

/// Idempotent rebuild: the registry a build denotes is a function of the
/// discovery results and configuration alone, so two builds from unchanged
/// inputs denote the same mapping, identifier set included.
pub proof fn lemma_idempotent_rebuild(
    local: Seq<DiscoveredAppView>,
    extras: Seq<Option<DiscoveredAppView>>,
    domain: Seq<char>,
    ui: Option<(Seq<char>, u16)>,
    r1: Map<Seq<char>, EndpointView>,
    r2: Map<Seq<char>, EndpointView>,
)
    requires
        r1 == all_endpoints_view(local, extras, domain, ui),
        r2 == all_endpoints_view(local, extras, domain, ui),
    ensures
        r1 == r2,
        r1.dom() == r2.dom(),
{
}

} // verus!
