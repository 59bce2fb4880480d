//! The endpoint abstraction: every content source the gateway can answer
//! from, together with its embedding policy.

use vstd::prelude::*;

verus! {

/// Whether an endpoint's content may be hosted inside a frame, and from
/// which origin.  `Yes(Some((host, port)))` permits framing only when the
/// requesting UI is served from that address; `Yes(None)` (no UI address
/// configured) places no origin restriction; `No` forbids framing always.
pub enum Embeddable {
    Yes(Option<(String, u16)>),
    No,
}

/// Where a page bundle's content comes from: a named built-in bundle
/// compiled into the gateway, or a directory on the local filesystem.
pub enum PageSource {
    Builtin(String),
    Local(String),
}

/// A content source able to answer requests under one identifier.
pub enum Endpoint {
    /// A self-contained content bundle.
    Page { source: PageSource, prefix: Option<String>, fallback_to_index: bool, embeddable: Embeddable },
    /// Generates a proxy-auto-config script for `dapps_domain`.
    ProxyPac { ui_address: Option<(String, u16)>, dapps_domain: String },
    /// Forwards requests for remote resources, gated by a token authority.
    WebRelay { ui_address: Option<(String, u16)> },
    /// Answers every request with a redirect to the configured UI address.
    Redirection { ui_address: Option<(String, u16)> },
}

/// A bundle found by filesystem discovery: its derived identifier and the
/// directory it lives in.  Validation (manifest present, readable) happens
/// in the discovery pass itself; only valid bundles become records.
pub struct DiscoveredApp {
    pub id: String,
    pub path: String,
}

/// Mathematical image of an address: host characters and port.
pub open spec fn addr_view(a: Option<(String, u16)>) -> Option<(Seq<char>, u16)> {
    match a {
        Some(p) => Some((p.0@, p.1)),
        None => None,
    }
}

/// Mathematical image of an `Embeddable` tag.
pub enum EmbeddableView {
    Yes(Option<(Seq<char>, u16)>),
    No,
}

/// Mathematical image of a `PageSource`.
pub enum PageSourceView {
    Builtin(Seq<char>),
    Local(Seq<char>),
}

/// Mathematical image of an `Endpoint`.
pub enum EndpointView {
    Page { source: PageSourceView, prefix: Option<Seq<char>>, fallback_to_index: bool, embeddable: EmbeddableView },
    ProxyPac { ui_address: Option<(Seq<char>, u16)>, dapps_domain: Seq<char> },
    WebRelay { ui_address: Option<(Seq<char>, u16)> },
    Redirection { ui_address: Option<(Seq<char>, u16)> },
}

/// Mathematical image of a `DiscoveredApp`.
pub struct DiscoveredAppView {
    pub id: Seq<char>,
    pub path: Seq<char>,
}

impl View for Embeddable {
    type V = EmbeddableView;

    open spec fn view(&self) -> EmbeddableView {
        match self {
            Embeddable::Yes(a) => EmbeddableView::Yes(addr_view(*a)),
            Embeddable::No => EmbeddableView::No,
        }
    }
}

impl View for PageSource {
    type V = PageSourceView;

    open spec fn view(&self) -> PageSourceView {
        match self {
            PageSource::Builtin(name) => PageSourceView::Builtin(name@),
            PageSource::Local(path) => PageSourceView::Local(path@),
        }
    }
}

impl View for Endpoint {
    type V = EndpointView;

    open spec fn view(&self) -> EndpointView {
        match self {
            Endpoint::Page { source, prefix, fallback_to_index, embeddable } => EndpointView::Page {
                source: source@,
                prefix: match prefix {
                    Some(p) => Some(p@),
                    None => None,
                },
                fallback_to_index: *fallback_to_index,
                embeddable: embeddable@,
            },
            Endpoint::ProxyPac { ui_address, dapps_domain } => EndpointView::ProxyPac {
                ui_address: addr_view(*ui_address),
                dapps_domain: dapps_domain@,
            },
            Endpoint::WebRelay { ui_address } => EndpointView::WebRelay { ui_address: addr_view(*ui_address) },
            Endpoint::Redirection { ui_address } => EndpointView::Redirection { ui_address: addr_view(*ui_address) },
        }
    }
}

impl View for DiscoveredApp {
    type V = DiscoveredAppView;

    open spec fn view(&self) -> DiscoveredAppView {
        DiscoveredAppView { id: self.id@, path: self.path@ }
    }
}

/// What the transport layer is told about framing an endpoint's responses.
pub enum FramePolicy {
    /// Framing is allowed only from this host and port.
    AllowFrom(String, u16),
    /// No origin restriction: no UI address was configured, so the policy
    /// deliberately places no constraint rather than denying embedding.
    AllowAny,
    /// The strictest marking: never embeddable.
    Deny,
}

/// Copy an optional address, field by field.
pub fn clone_addr(a: &Option<(String, u16)>) -> (r: Option<(String, u16)>)
    ensures
        r == *a,
{
    match a {
        Some(p) => Some((p.0.clone(), p.1)),
        None => None,
    }
}

impl DiscoveredApp {
    /// Copy a discovery record, field by field.
    pub fn duplicate(&self) -> (r: DiscoveredApp)
        ensures
            r == *self,
    {
        DiscoveredApp { id: self.id.clone(), path: self.path.clone() }
    }
}

/// Translates an `Embeddable` tag into the framing instruction attached to
/// every response of the tagged endpoint.
pub fn frame_policy(e: &Embeddable) -> (p: FramePolicy)
    ensures
        match e@ {
            EmbeddableView::No => p is Deny,
            EmbeddableView::Yes(None) => p is AllowAny,
            EmbeddableView::Yes(Some(hp)) => (p matches FramePolicy::AllowFrom(h, pt) && h@ == hp.0
                && pt == hp.1),
        },
{
    match e {
        Embeddable::Yes(Some(p)) => FramePolicy::AllowFrom(p.0.clone(), p.1),
        Embeddable::Yes(None) => FramePolicy::AllowAny,
        Embeddable::No => FramePolicy::Deny,
    }
}

} // verus!
