//! Deployment descriptors and the addresses and payloads computed from them.

use vstd::prelude::*;
use vstd::string::StringExecFns;

use crate::text::json_escaped;
use crate::text::push_json_escaped;

verus! {

/// Selects the control-plane address family and session-scope payload:
/// a zoned session routes traffic by explicit patterns under a DNS zone,
/// a zoneless one by a generic subdomain under an account.
#[derive(Debug)]
pub enum DeployConfig {
    Zoned { zone_id: String, routes: Vec<String> },
    Zoneless { account_id: String },
}

/// The mathematical shape of a [`DeployConfig`].
pub enum ConfigView {
    Zoned { zone_id: Seq<char>, routes: Seq<Seq<char>> },
    Zoneless { account_id: Seq<char> },
}

impl View for DeployConfig {
    type V = ConfigView;

    open spec fn view(&self) -> ConfigView {
        match self {
            DeployConfig::Zoned { zone_id, routes } => ConfigView::Zoned {
                zone_id: zone_id@,
                routes: routes.deep_view(),
            },
            DeployConfig::Zoneless { account_id } => ConfigView::Zoneless {
                account_id: account_id@,
            },
        }
    }
}

/// The destination of the deployed artifact: the owning account, the artifact
/// name, and whether the artifact serves a site whose static-asset namespace
/// must exist before upload.
#[derive(Debug)]
pub struct DeployTarget {
    pub account_id: String,
    pub name: String,
    /// True when the artifact serves static site assets.
    pub site: bool,
    /// The provisioned namespace for those assets, recorded at most once
    /// during setup.
    pub site_namespace: Option<String>,
}

/// The mathematical shape of a [`DeployTarget`].
pub struct TargetView {
    pub account_id: Seq<char>,
    pub name: Seq<char>,
    pub site: bool,
    pub site_namespace: Option<Seq<char>>,
}

impl View for DeployTarget {
    type V = TargetView;

    open spec fn view(&self) -> TargetView {
        TargetView {
            account_id: self.account_id@,
            name: self.name@,
            site: self.site,
            site_namespace: match &self.site_namespace {
                Some(ns) => Some(ns@),
                None => None,
            },
        }
    }
}

/// The registration address of the session: zone-scoped for zoned configs,
/// account-scoped for zoneless ones.
pub open spec fn init_address_spec(config: ConfigView) -> Seq<char> {
    match config {
        ConfigView::Zoned { zone_id, .. } => "https://api.cloudflare.com/client/v4/zones/"@
            + zone_id + "/workers/edge-preview"@,
        ConfigView::Zoneless { account_id } => "https://api.cloudflare.com/client/v4/accounts/"@
            + account_id + "/workers/subdomain/edge-preview"@,
    }
}

/// The upload address: always account- and script-scoped, independent of the
/// zoned or zoneless routing mode.
pub open spec fn upload_address_spec(target: TargetView) -> Seq<char> {
    "https://api.cloudflare.com/client/v4/accounts/"@ + target.account_id
        + "/workers/scripts/"@ + target.name + "/edge-preview"@
}

/// The exchange address: the exchange host under the secure scheme.
pub open spec fn exchange_address_spec(host: Seq<char>) -> Seq<char> {
    "https://"@ + host
}

/// The inspector relay address: the inspection-service host with the
/// session's inspector token.
pub open spec fn inspector_address_spec(ws_token: Seq<char>) -> Seq<char> {
    "wss://rawhttp.cloudflareworkers.com/inspect/"@ + ws_token
}

/// A route pattern as a JSON string literal.
pub open spec fn quoted(s: Seq<char>) -> Seq<char> {
    seq!['"'] + json_escaped(s) + seq!['"']
}

/// A comma-separated list of quoted route patterns, in input order.
pub open spec fn routes_list(routes: Seq<Seq<char>>) -> Seq<char>
    decreases routes.len(),
{
    if routes.len() == 0 {
        Seq::empty()
    } else if routes.len() == 1 {
        quoted(routes[0])
    } else {
        routes_list(routes.drop_last()) + seq![','] + quoted(routes.last())
    }
}

/// The session-scope payload of a zoned session: its route patterns.
pub open spec fn routes_object(routes: Seq<Seq<char>>) -> Seq<char> {
    "{\"routes\":["@ + routes_list(routes) + "]}"@
}

/// The session-scope payload of a zoneless session: the subdomain marker.
pub open spec fn workers_dev_object() -> Seq<char> {
    "{\"workers_dev\":true}"@
}

/// The session-scope payload of a config: exactly one of the two shapes.
pub open spec fn session_config_spec(config: ConfigView) -> Seq<char> {
    match config {
        ConfigView::Zoned { routes, .. } => routes_object(routes),
        ConfigView::Zoneless { .. } => workers_dev_object(),
    }
}

/// Computes the registration address of `config`.
pub fn get_initialize_address(config: &DeployConfig) -> (r: String)
    ensures
        r@ == init_address_spec(config@),
{
    match config {
        DeployConfig::Zoned { zone_id, .. } => {
            let mut s = String::from_str("https://api.cloudflare.com/client/v4/zones/");
            s.append(zone_id.as_str());
            s.append("/workers/edge-preview");
            s
        },
        DeployConfig::Zoneless { account_id } => {
            let mut s = String::from_str("https://api.cloudflare.com/client/v4/accounts/");
            s.append(account_id.as_str());
            s.append("/workers/subdomain/edge-preview");
            s
        },
    }
}

/// Computes the upload address of `target`.
pub fn get_upload_address(target: &DeployTarget) -> (r: String)
    ensures
        r@ == upload_address_spec(target@),
{
    let mut s = String::from_str("https://api.cloudflare.com/client/v4/accounts/");
    s.append(target.account_id.as_str());
    s.append("/workers/scripts/");
    s.append(target.name.as_str());
    s.append("/edge-preview");
    s
}

/// Computes the exchange address from the exchange host.
pub fn get_exchange_address(host: &str) -> (r: String)
    ensures
        r@ == exchange_address_spec(host@),
{
    let mut s = String::from_str("https://");
    s.append(host);
    s
}

/// Computes the inspector relay address from the inspector token.
pub fn get_inspector_address(ws_token: &str) -> (r: String)
    ensures
        r@ == inspector_address_spec(ws_token@),
{
    let mut s = String::from_str("wss://rawhttp.cloudflareworkers.com/inspect/");
    s.append(ws_token);
    s
}

/// Computes the session-scope payload of `config`: the route patterns of a
/// zoned session, in input order, or the subdomain marker of a zoneless one.
pub fn get_session_config(config: &DeployConfig) -> (r: String)
    ensures
        r@ == session_config_spec(config@),
{
    match config {
        DeployConfig::Zoned { routes, .. } => {
            let mut out = String::from_str("{\"routes\":[");
            let ghost dv: Seq<Seq<char>> = routes.deep_view();
            let mut i: usize = 0;
            while i < routes.len()
                invariant
                    i <= routes@.len(),
                    dv == routes.deep_view(),
                    dv.len() == routes@.len(),
                    out@ == "{\"routes\":["@ + routes_list(dv.take(i as int)),
                decreases routes@.len() - i,
            {
                if i > 0 {
                    out.append(",");
                    proof {
                        reveal_strlit(",");
                    }
                }
                out.append("\"");
                push_json_escaped(&mut out, routes[i].as_str());
                out.append("\"");
                proof {
                    reveal_strlit("\"");
                    assert(("\"")@ =~= seq!['"']);
                    assert(dv.take(i + 1).drop_last() =~= dv.take(i as int));
                    assert(dv.take(i + 1).last() == dv[i as int]);
                    assert(dv[i as int] == routes@[i as int]@);
                    assert(out@ =~= "{\"routes\":["@ + routes_list(dv.take(i + 1)));
                }
                i += 1;
            }
            out.append("]}");
            proof {
                assert(dv.take(routes@.len() as int) =~= dv);
                assert(out@ =~= routes_object(dv));
            }
            out
        },
        DeployConfig::Zoneless { .. } => String::from_str("{\"workers_dev\":true}"),
    }
}

/// Whether `needle` occurs contiguously inside `hay`.
pub open spec fn contains_seq(hay: Seq<char>, needle: Seq<char>) -> bool {
    exists|i: int|
        0 <= i && i + needle.len() <= hay.len() && #[trigger] hay.subrange(i, i + needle.len())
            == needle
}

/// A zoned session's registration address contains its exact `zone_id`; a
/// zoneless session's contains its exact `account_id`.
pub proof fn lemma_registration_address_names_scope(config: ConfigView)
    ensures
        config matches ConfigView::Zoned { zone_id, .. } ==> contains_seq(
            init_address_spec(config),
            zone_id,
        ),
        config matches ConfigView::Zoneless { account_id } ==> contains_seq(
            init_address_spec(config),
            account_id,
        ),
{
    match config {
        ConfigView::Zoned { zone_id, .. } => {
            let prefix = "https://api.cloudflare.com/client/v4/zones/"@;
            let addr = init_address_spec(config);
            assert(addr.subrange(prefix.len() as int, (prefix.len() + zone_id.len()) as int) =~= zone_id);
            assert(contains_seq(addr, zone_id));
        },
        ConfigView::Zoneless { account_id } => {
            let prefix = "https://api.cloudflare.com/client/v4/accounts/"@;
            let addr = init_address_spec(config);
            assert(addr.subrange(prefix.len() as int, (prefix.len() + account_id.len()) as int)
                =~= account_id);
            assert(contains_seq(addr, account_id));
        },
    }
}

/// The upload address contains the target's exact `account_id` and artifact
/// `name`; it is a function of the target alone, independent of the zoned or
/// zoneless routing mode.
pub proof fn lemma_upload_address_names_target(target: TargetView)
    ensures
        contains_seq(upload_address_spec(target), target.account_id),
        contains_seq(upload_address_spec(target), target.name),
{
    let prefix = "https://api.cloudflare.com/client/v4/accounts/"@;
    let middle = "/workers/scripts/"@;
    let addr = upload_address_spec(target);
    assert(addr.subrange(prefix.len() as int, (prefix.len() + target.account_id.len()) as int)
        =~= target.account_id);
    assert(contains_seq(addr, target.account_id));
    let start = (prefix.len() + target.account_id.len() + middle.len()) as int;
    assert(addr.subrange(start, start + target.name.len() as int) =~= target.name);
    assert(contains_seq(addr, target.name));
}

/// The session-scope payload takes exactly one of its two shapes: the routes
/// object of the config's own patterns, in input order, for a zoned config,
/// and the subdomain marker for a zoneless one — never both.
pub proof fn lemma_session_payload_one_shape(config: ConfigView)
    ensures
        config matches ConfigView::Zoned { routes, .. } ==> session_config_spec(config)
            == routes_object(routes) && session_config_spec(config) != workers_dev_object(),
        config matches ConfigView::Zoneless { .. } ==> session_config_spec(config)
            == workers_dev_object() && forall|routes: Seq<Seq<char>>|
            session_config_spec(config) != #[trigger] routes_object(routes),
{
    assert forall|routes: Seq<Seq<char>>| #[trigger] routes_object(routes)
        != workers_dev_object() by {
        reveal_strlit("{\"routes\":[");
        reveal_strlit("{\"workers_dev\":true}");
        assert(routes_object(routes)[2] == 'r');
        assert(workers_dev_object()[2] == 'w');
    }
}

/// Whether upload must first provision the site's asset namespace: the target
/// serves a site and no namespace is recorded yet.
pub fn needs_site_namespace(target: &DeployTarget) -> (r: bool)
    ensures
        r == (target@.site && target@.site_namespace is None),
{
    target.site && target.site_namespace.is_none()
}

/// Records the provisioned asset namespace: an updated snapshot of `target`,
/// equal to it in every other field.
pub fn record_site_namespace(target: DeployTarget, namespace: String) -> (r: DeployTarget)
    ensures
        r@.account_id == target@.account_id,
        r@.name == target@.name,
        r@.site == target@.site,
        r@.site_namespace == Some(namespace@),
{
    DeployTarget {
        account_id: target.account_id,
        name: target.name,
        site: target.site,
        site_namespace: Some(namespace),
    }
}

} // verus!
