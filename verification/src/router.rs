//! The assembly of the service: what is served where, under which policy, and by
//! which tokens. The caller builds the routes; what they are made of stands here.

use vstd::prelude::*;
use vstd::utf8::encode_utf8;

use crate::auth::{
    law_challenge, law_known_token, AuthActionModel, AuthEventModel, AuthModel, AuthState, GrantModel,
    IDENTITY_LIMIT,
};
use crate::forward::{
    actor_headers, mode_of, text_view, time_limit, upstream_url, AppModel, AppState,
    ForwardActionModel, ForwardEventModel, RelayModel, UpstreamModel, ACTOR_HEADER, MODE_HEADER,
};
use crate::handler::{
    handler_outcome, rpc_error, CallModel, HandlerActionModel, HttpMethod, RpcCode,
};
use crate::policy::{law_service_classes, policy, service_policy};
use crate::service::{law_tools_are_distinct, Service, ServiceModel};
use crate::text::{
    cut, is_white_space, law_trimmed, law_without_trailing, trim, trim_trailing, trimmed,
    without_trailing,
};
use crate::wire::is_header_value;

verus! {

/// The path at which the protocol is served.
pub const MCP_PATH: &'static str = "/mcp";

/// How long a connection to the upstream may take to open, in seconds.
pub const CONNECT_TIMEOUT_SECS: u64 = 5;

/// How many idle connections to the upstream are kept.
pub const POOL_MAX_IDLE_PER_HOST: usize = 50;

/// What the authorization endpoints go by.
pub struct OAuthConfig {
    pub issuer: String,
    pub resource_url: String,
    pub resource_name: String,
    pub default_scope: String,
    pub valid_scopes: Vec<String>,
    pub extra_submit_scopes: Vec<String>,
    pub consent_hash: String,
    pub static_client_id: String,
}

/// What the service is assembled from.
pub struct ServiceConfig {
    pub upstream: String,
    pub static_token: String,
    pub static_token_scopes: Vec<String>,
    pub oauth: OAuthConfig,
    pub max_body_bytes: usize,
}

/// The file of the sessions that the authorization server keeps.
pub struct FileStoreMount {
    pub etat_path: String,
    pub expected_resource: Option<String>,
}

/// The token that is checked before the session stores are asked, and what it
/// grants.
pub struct StaticToken {
    pub token: String,
    pub client_id: String,
    pub scopes: Vec<String>,
}

/// What the routes are made of.
pub struct RouterPlan {
    /// The file of sessions to read, if there is one.
    pub file_store: Option<String>,
    pub static_token: StaticToken,
    pub auth: AuthState,
    pub app: AppState,
    pub oauth: OAuthConfig,
    pub mcp_path: String,
    pub mcp_methods: Vec<HttpMethod>,
    pub service_name: String,
    pub prm_aliases: Vec<String>,
    pub connect_timeout_secs: u64,
    pub pool_max_idle_per_host: usize,
    pub max_body_bytes: usize,
}

/// The file of sessions to read: none where its path is blank.
pub open spec fn mounted(mount: Option<FileStoreMount>) -> Option<Seq<char>> {
    match mount {
        Some(m) => if trimmed(m.etat_path@).len() > 0 {
            Some(m.etat_path@)
        } else {
            None
        },
        None => None,
    }
}

/// What admission to a service goes by.
pub open spec fn service_auth(service: ServiceModel) -> AuthModel {
    AuthModel { required_scopes: set![service.read_scope()], prm_url: service.prm_url() }
}

/// What the relay of a service goes by, with the upstream at `upstream`.
pub open spec fn service_app(service: ServiceModel, upstream: Seq<char>) -> AppModel {
    AppModel {
        upstream: without_trailing(upstream, '/'),
        static_client_id: service.static_client_id(),
        policy: service_policy(service),
    }
}

/// Whether `plan` is what `service` is made of, under the configuration `cfg` and
/// with the session file `store`.
pub open spec fn is_plan_of(
    plan: RouterPlan,
    service: ServiceModel,
    cfg: ServiceConfig,
    store: Option<Seq<char>>,
) -> bool {
    &&& text_view(plan.file_store) == store
    &&& plan.static_token.token == cfg.static_token
    &&& plan.static_token.client_id@ == service.static_client_id()
    &&& plan.static_token.scopes == cfg.static_token_scopes
    &&& plan.auth@ == service_auth(service)
    &&& plan.app@ == service_app(service, cfg.upstream@)
    &&& plan.oauth == cfg.oauth
    &&& plan.mcp_path@ == MCP_PATH@
    &&& plan.mcp_methods@ == seq![HttpMethod::Get, HttpMethod::Post, HttpMethod::Delete]
    &&& plan.service_name@ == service.name()
    &&& plan.prm_aliases.deep_view() == seq![service.prm_alias()]
    &&& plan.connect_timeout_secs == CONNECT_TIMEOUT_SECS
    &&& plan.pool_max_idle_per_host == POOL_MAX_IDLE_PER_HOST
    &&& plan.max_body_bytes == cfg.max_body_bytes
}

/// Assembles the service, without a file of sessions.
pub fn build_router(service: &Service, cfg: ServiceConfig) -> (r: RouterPlan)
    ensures
        is_plan_of(r, service@, cfg, None),
        r.file_store is None,
        r.static_token.token == cfg.static_token,
        r.static_token.scopes == cfg.static_token_scopes,
        r.static_token.client_id@ == service.slug@ + "-mcp-cli-statique"@,
        r.oauth == cfg.oauth,
        r.oauth.issuer == cfg.oauth.issuer,
        r.auth.prm_url@ == "https://mymcps.duckdns.org"@ + (
        "/.well-known/oauth-protected-resource/"@ + service.slug@ + "/mcp"@),
        r.auth.required_scopes@.len() == 1,
        r.auth.required_scopes@[0]@ == service.slug@ + ":lecture"@,
        r.app.static_client_id@ == service.slug@ + "-mcp-cli-statique"@,
        r.service_name@ == service.slug@ + "-mcp"@,
        r.prm_aliases@.len() == 1,
        r.prm_aliases@[0]@ == "/.well-known/oauth-protected-resource/"@ + service.slug@ + "/mcp"@,
        r.mcp_path@ == "/mcp"@,
        r.connect_timeout_secs == 5,
        r.pool_max_idle_per_host == 50,
        r.max_body_bytes == cfg.max_body_bytes,
{
    build_router_full(service, cfg, None)
}

/// Assembles the service, with the file of sessions that `mount` names, if it names
/// one.
pub fn build_router_with_filestore(
    service: &Service,
    cfg: ServiceConfig,
    mount: Option<FileStoreMount>,
) -> (r: RouterPlan)
    ensures
        is_plan_of(r, service@, cfg, mounted(mount)),
        r.file_store is Some <==> mount is Some && exists|i: int|
            0 <= i < mount->0.etat_path@.len() && !is_white_space(#[trigger] mount->0.etat_path@[i]),
        r.file_store is Some ==> r.file_store->0@ == mount->0.etat_path@,
        r.static_token.token == cfg.static_token,
        r.static_token.scopes == cfg.static_token_scopes,
        r.static_token.client_id@ == service.slug@ + "-mcp-cli-statique"@,
        r.oauth == cfg.oauth,
        r.oauth.issuer == cfg.oauth.issuer,
        r.auth.prm_url@ == "https://mymcps.duckdns.org"@ + (
        "/.well-known/oauth-protected-resource/"@ + service.slug@ + "/mcp"@),
        r.auth.required_scopes@.len() == 1,
        r.auth.required_scopes@[0]@ == service.slug@ + ":lecture"@,
        r.app.static_client_id@ == service.slug@ + "-mcp-cli-statique"@,
        r.service_name@ == service.slug@ + "-mcp"@,
        r.prm_aliases@.len() == 1,
        r.prm_aliases@[0]@ == "/.well-known/oauth-protected-resource/"@ + service.slug@ + "/mcp"@,
        r.mcp_path@ == "/mcp"@,
        r.connect_timeout_secs == 5,
        r.pool_max_idle_per_host == 50,
        r.max_body_bytes == cfg.max_body_bytes,
{
    build_router_full(service, cfg, mount)
}

fn build_router_full(service: &Service, cfg: ServiceConfig, mount: Option<FileStoreMount>) -> (r:
    RouterPlan)
    ensures
        is_plan_of(r, service@, cfg, mounted(mount)),
        r.file_store is Some <==> mount is Some && exists|i: int|
            0 <= i < mount->0.etat_path@.len() && !is_white_space(#[trigger] mount->0.etat_path@[i]),
        r.file_store is Some ==> r.file_store->0@ == mount->0.etat_path@,
        r.static_token.token == cfg.static_token,
        r.static_token.scopes == cfg.static_token_scopes,
        r.static_token.client_id@ == service.slug@ + "-mcp-cli-statique"@,
        r.oauth == cfg.oauth,
        r.oauth.issuer == cfg.oauth.issuer,
        r.auth.prm_url@ == "https://mymcps.duckdns.org"@ + (
        "/.well-known/oauth-protected-resource/"@ + service.slug@ + "/mcp"@),
        r.auth.required_scopes@.len() == 1,
        r.auth.required_scopes@[0]@ == service.slug@ + ":lecture"@,
        r.app.static_client_id@ == service.slug@ + "-mcp-cli-statique"@,
        r.service_name@ == service.slug@ + "-mcp"@,
        r.prm_aliases@.len() == 1,
        r.prm_aliases@[0]@ == "/.well-known/oauth-protected-resource/"@ + service.slug@ + "/mcp"@,
        r.mcp_path@ == "/mcp"@,
        r.connect_timeout_secs == 5,
        r.pool_max_idle_per_host == 50,
        r.max_body_bytes == cfg.max_body_bytes,
{
    proof {
        if mount is Some {
            law_trimmed(mount->0.etat_path@);
        }
    }
    let file_store: Option<String> = match mount {
        Some(m) => if trim(m.etat_path.as_str()).as_str().is_empty() {
            None
        } else {
            Some(m.etat_path)
        },
        None => None,
    };
    let mut required_scopes: Vec<String> = Vec::new();
    required_scopes.push(service.read_scope());
    let auth = AuthState { required_scopes, prm_url: service.prm_url() };
    let app = AppState {
        upstream: trim_trailing(cfg.upstream.as_str(), '/'),
        static_client_id: service.static_client_id(),
        policy: policy(service),
    };
    let mut mcp_methods: Vec<HttpMethod> = Vec::new();
    mcp_methods.push(HttpMethod::Get);
    mcp_methods.push(HttpMethod::Post);
    mcp_methods.push(HttpMethod::Delete);
    let mut prm_aliases: Vec<String> = Vec::new();
    prm_aliases.push(service.prm_alias());
    proof {
        let required = auth.required_scopes.deep_view();
        assert(required =~= seq![service@.read_scope()]);
        assert(required.contains(required[0]));
        assert(required.to_set() =~= set![service@.read_scope()]);
        assert(prm_aliases.deep_view() =~= seq![service@.prm_alias()]);
        assert(mcp_methods@ =~= seq![HttpMethod::Get, HttpMethod::Post, HttpMethod::Delete]);
    }
    RouterPlan {
        file_store,
        static_token: StaticToken {
            token: cfg.static_token,
            client_id: service.static_client_id(),
            scopes: cfg.static_token_scopes,
        },
        auth,
        app,
        oauth: cfg.oauth,
        mcp_path: MCP_PATH.to_string(),
        mcp_methods,
        service_name: service.name(),
        prm_aliases,
        connect_timeout_secs: CONNECT_TIMEOUT_SECS,
        pool_max_idle_per_host: POOL_MAX_IDLE_PER_HOST,
        max_body_bytes: cfg.max_body_bytes,
    }
}

/// The configuration of the service, under the given settings.
pub fn service_config(
    service: &Service,
    upstream: String,
    static_token: String,
    static_token_scopes: Vec<String>,
    issuer: String,
    consent_hash: String,
    max_body_bytes: usize,
) -> (r: ServiceConfig)
    ensures
        r.upstream == upstream,
        r.static_token == static_token,
        r.static_token_scopes == static_token_scopes,
        r.max_body_bytes == max_body_bytes,
        r.oauth.issuer == issuer,
        r.oauth.resource_url@ == service@.resource_url(),
        r.oauth.resource_name@ == service@.resource_name(),
        r.oauth.default_scope@ == service@.read_scope(),
        r.oauth.valid_scopes.deep_view() == seq![service@.read_scope(), service@.write_scope()],
        r.oauth.extra_submit_scopes.deep_view() == seq![service@.write_scope()],
        r.oauth.consent_hash == consent_hash,
        r.oauth.static_client_id@ == service@.static_client_id(),
        r.oauth.resource_url@ == "https://mymcps.duckdns.org/"@ + service.slug@ + "/mcp"@,
        r.oauth.resource_name@ == "delegation de reflexion "@ + service.product@
            + " (passerelle)"@,
        r.oauth.default_scope@ == service.slug@ + ":lecture"@,
        r.oauth.valid_scopes@.len() == 2,
        r.oauth.valid_scopes@[0]@ == service.slug@ + ":lecture"@,
        r.oauth.valid_scopes@[1]@ == service.slug@ + ":ecriture"@,
        r.oauth.extra_submit_scopes@.len() == 1,
        r.oauth.extra_submit_scopes@[0]@ == service.slug@ + ":ecriture"@,
        r.oauth.static_client_id@ == service.slug@ + "-mcp-cli-statique"@,
{
    let mut valid_scopes: Vec<String> = Vec::new();
    valid_scopes.push(service.read_scope());
    valid_scopes.push(service.write_scope());
    let mut extra_submit_scopes: Vec<String> = Vec::new();
    extra_submit_scopes.push(service.write_scope());
    assert(valid_scopes.deep_view() =~= seq![service@.read_scope(), service@.write_scope()]);
    assert(extra_submit_scopes.deep_view() =~= seq![service@.write_scope()]);
    ServiceConfig {
        upstream,
        static_token,
        static_token_scopes,
        oauth: OAuthConfig {
            issuer,
            resource_url: service.resource_url(),
            resource_name: service.resource_name(),
            default_scope: service.read_scope(),
            valid_scopes,
            extra_submit_scopes,
            consent_hash,
            static_client_id: service.static_client_id(),
        },
        max_body_bytes,
    }
}

proof fn lemma_without_trailing(s: Seq<char>, c: char)
    ensures
        without_trailing(s, c).len() > 0 ==> without_trailing(s, c).last() != c,
        without_trailing(s, c).len() <= s.len(),
        without_trailing(s, c) == s.take(without_trailing(s, c).len() as int),
        forall|i: int|
            without_trailing(s, c).len() <= i < s.len() ==> #[trigger] s[i] == c,
    decreases s.len(),
{
    if s.len() > 0 && s.last() == c {
        let rest = s.drop_last();
        lemma_without_trailing(rest, c);
        assert(without_trailing(s, c) =~= s.take(without_trailing(s, c).len() as int));
        assert forall|i: int| without_trailing(s, c).len() <= i < s.len() implies #[trigger] s[i]
            == c by {
            if i < rest.len() {
                assert(rest[i] == s[i]);
            }
        }
    } else {
        assert(s.take(s.len() as int) =~= s);
    }
}

/// The address of the upstream ends without a slash, and is the one that was set
/// but for the slashes at its end.
pub proof fn law_upstream_has_no_trailing_slash(service: ServiceModel, upstream: Seq<char>)
    ensures
        ({
            let kept = service_app(service, upstream).upstream;
            &&& kept.len() > 0 ==> kept.last() != '/'
            &&& kept.len() <= upstream.len()
            &&& kept == upstream.take(kept.len() as int)
            &&& forall|i: int| kept.len() <= i < upstream.len() ==> #[trigger] upstream[i] == '/'
        }),
{
    lemma_without_trailing(upstream, '/');
}

/// Every request that a service admits may call the tool that reads: a token without
/// the read scope does not come that far, though the write scope alone would open
/// the tool.
pub proof fn law_admitted_may_read(
    service: ServiceModel,
    bearer: Option<Seq<char>>,
    fixed: Option<GrantModel>,
    resolved: Option<GrantModel>,
)
    ensures
        service_auth(service).outcome(bearer, fixed, resolved) matches AuthActionModel::Admit {
            scopes,
            identity,
        } ==> {
            &&& scopes.contains(service.read_scope())
            &&& service_policy(service).allows("opus_health"@, scopes)
        },
{
    law_tools_are_distinct();
    assert(service_auth(service).required_scopes.contains(service.read_scope()));
}

/// A request with the static token, if it has the read scope, is relayed as one of
/// the static client in the mode `cli`. The identifier of that client is not cut, for
/// any slug that leaves it within the limit, and the request is sent, for any slug
/// that can stand in a header.
pub proof fn law_static_client_is_cli(
    service: ServiceModel,
    upstream: Seq<char>,
    bearer: Seq<char>,
    scopes: Set<Seq<char>>,
    resolved: Option<GrantModel>,
    method: HttpMethod,
    request: RelayModel,
)
    requires
        service.static_client_id().len() <= IDENTITY_LIMIT,
        scopes.contains(service.read_scope()),
        request.identite == Some(service.static_client_id()),
    ensures
        service_auth(service).outcome(
            Some(bearer),
            Some(GrantModel { client_id: service.static_client_id(), scopes }),
            resolved,
        ) == (AuthActionModel::Admit { scopes, identity: service.static_client_id() }),
        service_app(service, upstream).relayed(method, request).headers == request.headers.push(
            (ACTOR_HEADER@, encode_utf8(service.static_client_id())),
        ).push((MODE_HEADER@, encode_utf8("cli"@))),
        is_header_value(encode_utf8(service.static_client_id())) ==> service_app(
            service,
            upstream,
        ).next(scopes, method, ForwardEventModel::Admitted(request)) == ForwardActionModel::Send(
            service_app(service, upstream).relayed(method, request),
        ),
{
    reveal_strlit("-mcp-cli-statique");
    assert(service.static_client_id().len() > 0);
    assert(service_auth(service).required_scopes.subset_of(scopes));
    assert(service_app(service, upstream).relayed(method, request).headers
        =~= request.headers.push((ACTOR_HEADER@, encode_utf8(service.static_client_id()))).push(
        (MODE_HEADER@, encode_utf8("cli"@)),
    ));
}

/// A request with a token that the session stores know, if it has the read scope, is
/// relayed under the identifier of that token's client, cut down to the limit: in the
/// mode `oauth`, unless that is the identifier of the static client.
pub proof fn law_session_client_is_relayed(
    service: ServiceModel,
    upstream: Seq<char>,
    bearer: Seq<char>,
    grant: GrantModel,
    method: HttpMethod,
    request: RelayModel,
)
    requires
        grant.scopes.contains(service.read_scope()),
        grant.client_id.len() > 0,
        request.identite == Some(cut(grant.client_id, IDENTITY_LIMIT as nat)),
    ensures
        ({
            let id = cut(grant.client_id, IDENTITY_LIMIT as nat);
            let sent = service_app(service, upstream).relayed(method, request);
            &&& service_auth(service).outcome(Some(bearer), None, Some(grant)) == (
            AuthActionModel::Admit { scopes: grant.scopes, identity: id })
            &&& id != service.static_client_id() ==> sent.headers == request.headers.push(
                (ACTOR_HEADER@, encode_utf8(id)),
            ).push((MODE_HEADER@, encode_utf8("oauth"@)))
            &&& id == service.static_client_id() ==> sent.headers == request.headers.push(
                (ACTOR_HEADER@, encode_utf8(id)),
            ).push((MODE_HEADER@, encode_utf8("cli"@)))
            &&& is_header_value(encode_utf8(id)) ==> service_app(service, upstream).next(
                grant.scopes,
                method,
                ForwardEventModel::Admitted(request),
            ) == ForwardActionModel::Send(sent)
        }),
{
    let id = cut(grant.client_id, IDENTITY_LIMIT as nat);
    let sent = service_app(service, upstream).relayed(method, request);
    assert(service_auth(service).required_scopes.subset_of(grant.scopes));
    assert(id.len() > 0);
    let mode = mode_of(id, service.static_client_id());
    assert(sent.headers =~= request.headers.push((ACTOR_HEADER@, encode_utf8(id))).push(
        (MODE_HEADER@, encode_utf8(mode)),
    ));
}

/// What a request to a service sends to the upstream, if anything: one that carries
/// the token `bearer`, to which the static token grants `fixed` and the session stores
/// `resolved`, with the body `body` (`None` where it cannot be had) and a message that
/// asks for `decision`. The path, the query, the headers to hand on and the setting of
/// the time limit are those of `request`.
pub open spec fn sent_upstream<I>(
    service: ServiceModel,
    upstream: Seq<char>,
    bearer: Option<Seq<char>>,
    fixed: Option<GrantModel>,
    resolved: Option<GrantModel>,
    method: HttpMethod,
    body: Option<Seq<u8>>,
    decision: CallModel<I>,
    request: RelayModel,
) -> Option<UpstreamModel> {
    match service_auth(service).outcome(bearer, fixed, resolved) {
        AuthActionModel::Admit { scopes, identity } => match handler_outcome(
            service_policy(service),
            scopes,
            method,
            body,
            decision,
        ) {
            HandlerActionModel::Forward(sent) => match service_app(service, upstream).next(
                scopes,
                method,
                ForwardEventModel::Admitted(
                    RelayModel { body: sent, identite: Some(identity), ..request },
                ),
            ) {
                ForwardActionModel::Send(out) => Some(out),
                _ => None,
            },
            _ => None,
        },
        _ => None,
    }
}

/// What reaches the upstream. A request does exactly where its token is known and has
/// the read scope, the identifier of its client can stand in a header, and its message,
/// if it has a body to read, calls no tool or one that its scopes open. It then goes
/// out with its own method and body, under the headers that were handed on and those
/// that tell the client.
pub proof fn law_what_reaches_the_upstream<I>(
    service: ServiceModel,
    upstream: Seq<char>,
    bearer: Option<Seq<char>>,
    fixed: Option<GrantModel>,
    resolved: Option<GrantModel>,
    method: HttpMethod,
    body: Option<Seq<u8>>,
    decision: CallModel<I>,
    request: RelayModel,
)
    ensures
        ({
            let grant = if fixed is Some {
                fixed
            } else {
                resolved
            };
            let id = cut(grant->0.client_id, IDENTITY_LIMIT as nat);
            let judged = method.has_body() && body is Some && body->0.len() > 0;
            let sent = sent_upstream(
                service,
                upstream,
                bearer,
                fixed,
                resolved,
                method,
                body,
                decision,
                request,
            );
            &&& sent is Some <==> {
                &&& bearer is Some
                &&& grant is Some
                &&& grant->0.scopes.contains(service.read_scope())
                &&& is_header_value(encode_utf8(id))
                &&& method.has_body() ==> body is Some
                &&& judged ==> match decision {
                    CallModel::Call { id: _, name } => service_policy(service).allows(
                        name,
                        grant->0.scopes,
                    ),
                    CallModel::Passthrough => true,
                    _ => false,
                }
            }
            &&& sent matches Some(out) ==> {
                &&& out.method == method
                &&& out.url == upstream_url(
                    without_trailing(upstream, '/'),
                    request.path,
                    request.query,
                )
                &&& out.headers == request.headers + actor_headers(
                    Some(id),
                    service.static_client_id(),
                )
                &&& out.timeout_secs == time_limit(method, request.post_timeout)
                &&& out.body == if judged {
                    body
                } else {
                    None
                }
            }
        }),
{
    let required = service_auth(service).required_scopes;
    assert(required.contains(service.read_scope()));
    assert forall|scopes: Set<Seq<char>>| #[trigger] required.subset_of(scopes) == scopes.contains(
        service.read_scope(),
    ) by {
        if scopes.contains(service.read_scope()) {
            assert(required.subset_of(scopes));
        }
    }
}

/// A call of a tool that writes, under scopes without the write scope, never reaches
/// the upstream: it is answered with an error that carries the identifier of the
/// message and names the scope.
pub proof fn law_write_needs_scope<I>(
    service: ServiceModel,
    scopes: Set<Seq<char>>,
    method: HttpMethod,
    body: Seq<u8>,
    id: Option<I>,
    name: Seq<char>,
)
    requires
        method.has_body(),
        body.len() > 0,
        name == "opus_think"@ || name == "opus_session"@,
        !scopes.contains(service.write_scope()),
    ensures
        handler_outcome(
            service_policy(service),
            scopes,
            method,
            Some(body),
            CallModel::Call { id, name },
        ) == rpc_error(id, RpcCode::App, "portee requise : "@ + service.write_scope()),
{
    law_service_classes(service, name);
}

/// A call of a tool that a service does not have never reaches the upstream,
/// whatever the scopes.
pub proof fn law_unknown_tool_is_refused<I>(
    service: ServiceModel,
    scopes: Set<Seq<char>>,
    method: HttpMethod,
    body: Seq<u8>,
    id: Option<I>,
    name: Seq<char>,
)
    requires
        method.has_body(),
        body.len() > 0,
        name != "opus_health"@,
        name != "opus_think"@,
        name != "opus_session"@,
    ensures
        handler_outcome(
            service_policy(service),
            scopes,
            method,
            Some(body),
            CallModel::Call { id, name },
        ) == rpc_error(id, RpcCode::App, "outil inconnu (fail-closed) : "@ + name),
{
    law_service_classes(service, name);
}

/// A session file whose path is blank is the same as none.
pub proof fn law_blank_mount_is_none(mount: FileStoreMount)
    requires
        trimmed(mount.etat_path@).len() == 0,
    ensures
        mounted(Some(mount)) == mounted(None),
{
}

/// What the authorization endpoints of a service go by is what was configured, each
/// setting on its own: the issuer, the resource, its name, the scopes, the hash that
/// consent is checked against and the static client.
pub proof fn law_plan_keeps_the_settings(
    plan: RouterPlan,
    service: ServiceModel,
    cfg: ServiceConfig,
    store: Option<Seq<char>>,
)
    requires
        is_plan_of(plan, service, cfg, store),
    ensures
        plan.oauth.issuer@ == cfg.oauth.issuer@,
        plan.oauth.resource_url@ == cfg.oauth.resource_url@,
        plan.oauth.resource_name@ == cfg.oauth.resource_name@,
        plan.oauth.default_scope@ == cfg.oauth.default_scope@,
        plan.oauth.valid_scopes@ == cfg.oauth.valid_scopes@,
        plan.oauth.extra_submit_scopes@ == cfg.oauth.extra_submit_scopes@,
        plan.oauth.consent_hash@ == cfg.oauth.consent_hash@,
        plan.oauth.static_client_id@ == cfg.oauth.static_client_id@,
        plan.static_token.token@ == cfg.static_token@,
        plan.static_token.scopes@ == cfg.static_token_scopes@,
        plan.max_body_bytes == cfg.max_body_bytes,
        plan.file_store is Some <==> store is Some,
        store is Some ==> plan.file_store->0@ == store->0,
{
}

/// What a service is made of besides its settings: one required scope, one static
/// client, one alias of the metadata, the path and its three methods, and the limits
/// of the connections.
pub proof fn law_plan_is_of_the_service(
    plan: RouterPlan,
    service: ServiceModel,
    cfg: ServiceConfig,
    store: Option<Seq<char>>,
)
    requires
        is_plan_of(plan, service, cfg, store),
    ensures
        plan.static_token.client_id@ == service.slug + "-mcp-cli-statique"@,
        plan.app.static_client_id@ == service.slug + "-mcp-cli-statique"@,
        plan.auth.required_scopes@.len() > 0,
        forall|i: int|
            0 <= i < plan.auth.required_scopes@.len()
                ==> #[trigger] plan.auth.required_scopes@[i]@ == service.slug + ":lecture"@,
        plan.auth.prm_url@ == "https://mymcps.duckdns.org/.well-known/oauth-protected-resource/"@
            + service.slug + "/mcp"@,
        plan.prm_aliases@.len() == 1,
        plan.prm_aliases@[0]@ == "/.well-known/oauth-protected-resource/"@ + service.slug
            + "/mcp"@,
        plan.service_name@ == service.slug + "-mcp"@,
        plan.mcp_path@ == "/mcp"@,
        plan.mcp_methods@ == seq![HttpMethod::Get, HttpMethod::Post, HttpMethod::Delete],
        plan.connect_timeout_secs == 5,
        plan.pool_max_idle_per_host == 50,
        plan.app.policy@.read_scope == service.slug + ":lecture"@,
        plan.app.policy@.write_scope == service.slug + ":ecriture"@,
{
    lemma_metadata_prefix();
    let required = plan.auth.required_scopes.deep_view();
    assert(plan.auth@.required_scopes == required.to_set());
    assert(required.to_set().contains(service.read_scope()));
    assert forall|i: int| 0 <= i < plan.auth.required_scopes@.len() implies
        #[trigger] plan.auth.required_scopes@[i]@ == service.slug + ":lecture"@ by {
        assert(required[i] == plan.auth.required_scopes@[i]@);
        assert(required.to_set().contains(required[i]));
    }
    let aliases = plan.prm_aliases.deep_view();
    assert(aliases.len() == plan.prm_aliases@.len());
    assert(aliases == seq![service.prm_alias()]);
    assert(aliases[0] == plan.prm_aliases@[0]@);
    assert(plan.auth.prm_url@
        =~= "https://mymcps.duckdns.org/.well-known/oauth-protected-resource/"@ + service.slug
        + "/mcp"@);
}

proof fn lemma_metadata_prefix()
    ensures
        "https://mymcps.duckdns.org/.well-known/oauth-protected-resource/"@
            == "https://mymcps.duckdns.org"@ + "/.well-known/oauth-protected-resource/"@,
{
    reveal_strlit("https://mymcps.duckdns.org/.well-known/oauth-protected-resource/");
    reveal_strlit("https://mymcps.duckdns.org");
    reveal_strlit("/.well-known/oauth-protected-resource/");
    assert("https://mymcps.duckdns.org/.well-known/oauth-protected-resource/"@
        =~= "https://mymcps.duckdns.org"@ + "/.well-known/oauth-protected-resource/"@);
}

/// The upstream of a service is the one that was set, less the slashes at its end,
/// however many.
pub proof fn law_plan_upstream(
    plan: RouterPlan,
    service: ServiceModel,
    cfg: ServiceConfig,
    store: Option<Seq<char>>,
    address: Seq<char>,
    slashes: Seq<char>,
)
    requires
        is_plan_of(plan, service, cfg, store),
        cfg.upstream@ == address + slashes,
        address.len() > 0 ==> address.last() != '/',
        forall|i: int| 0 <= i < slashes.len() ==> #[trigger] slashes[i] == '/',
    ensures
        plan.app.upstream@ == address,
{
    law_without_trailing(address, slashes, '/');
}

/// A request to an assembled service without a token, or with one that nothing knows,
/// is answered 401 with the whole address of the metadata of that service: the address
/// at which the service itself serves them, on the same host.
pub proof fn law_service_challenge(
    plan: RouterPlan,
    service: ServiceModel,
    cfg: ServiceConfig,
    store: Option<Seq<char>>,
    bearer: Option<Seq<char>>,
)
    requires
        is_plan_of(plan, service, cfg, store),
    ensures
        plan.auth@.next(AuthEventModel::Bearer(None)) matches AuthActionModel::Refuse(reply) && {
            &&& reply.status == 401
            &&& reply.headers.len() == 1
            &&& reply.headers[0].0 == "www-authenticate"@
            &&& reply.headers[0].1
                == "Bearer resource_metadata=\"https://mymcps.duckdns.org/.well-known/oauth-protected-resource/"@
                + service.slug + "/mcp\""@
            &&& reply.headers[0].1 == "Bearer resource_metadata=\"https://mymcps.duckdns.org"@
                + plan.prm_aliases@[0]@ + "\""@
            &&& reply.body == "Unauthorized"@
        },
        plan.auth@.outcome(bearer, None, None) == plan.auth@.next(AuthEventModel::Bearer(None)),
{
    law_plan_is_of_the_service(plan, service, cfg, store);
    law_challenge(plan.auth@, None, None, None);
    law_challenge(plan.auth@, bearer, None, None);
    let url = plan.auth.prm_url@;
    let start = "Bearer resource_metadata=\""@;
    reveal_strlit("Bearer resource_metadata=\"");
    reveal_strlit("Bearer resource_metadata=\"https://mymcps.duckdns.org");
    reveal_strlit(
        "Bearer resource_metadata=\"https://mymcps.duckdns.org/.well-known/oauth-protected-resource/",
    );
    reveal_strlit("https://mymcps.duckdns.org/.well-known/oauth-protected-resource/");
    reveal_strlit("https://mymcps.duckdns.org");
    reveal_strlit("/mcp\"");
    reveal_strlit("/mcp");
    reveal_strlit("\"");
    lemma_metadata_prefix();
    assert("Bearer resource_metadata=\"https://mymcps.duckdns.org"@ =~= start
        + "https://mymcps.duckdns.org"@);
    assert("Bearer resource_metadata=\"https://mymcps.duckdns.org/.well-known/oauth-protected-resource/"@
        =~= start + "https://mymcps.duckdns.org/.well-known/oauth-protected-resource/"@);
    assert("/mcp\""@ =~= "/mcp"@ + "\""@);
    assert(start + url + "\""@
        =~= "Bearer resource_metadata=\"https://mymcps.duckdns.org/.well-known/oauth-protected-resource/"@
        + service.slug + "/mcp\""@);
    assert(start + url + "\""@ =~= "Bearer resource_metadata=\"https://mymcps.duckdns.org"@
        + plan.prm_aliases@[0]@ + "\""@);
}

/// Who is admitted to a service: every client with the scope that the slug makes with
/// `:lecture`, under all its scopes; any other client with a token that is known is
/// answered 403, the write scope or not.
pub proof fn law_service_admission(
    service: ServiceModel,
    bearer: Seq<char>,
    grant: GrantModel,
    other: Option<GrantModel>,
)
    ensures
        grant.scopes.contains(service.slug + ":lecture"@) ==> (service_auth(service).outcome(
            Some(bearer),
            Some(grant),
            other,
        ) matches AuthActionModel::Admit { scopes, identity } && scopes == grant.scopes && identity
            == if grant.client_id.len() <= 128 {
            grant.client_id
        } else {
            grant.client_id.take(128)
        }),
        !grant.scopes.contains(service.slug + ":lecture"@) ==> (service_auth(service).outcome(
            Some(bearer),
            Some(grant),
            other,
        ) matches AuthActionModel::Refuse(reply) && reply.status == 403 && reply.headers.len() == 0
            && reply.body == "Forbidden"@),
        service_auth(service).outcome(Some(bearer), Some(grant), other) == service_auth(
            service,
        ).outcome(Some(bearer), None, Some(grant)),
{
    law_known_token(service_auth(service), bearer, grant, other);
    assert(service_auth(service).required_scopes.contains(service.slug + ":lecture"@));
}

/// The session file is read where its path holds anything but white space, under that
/// path as it was set; else there is none.
pub proof fn law_mount(mount: FileStoreMount)
    ensures
        (exists|i: int|
            0 <= i < mount.etat_path@.len() && !is_white_space(#[trigger] mount.etat_path@[i]))
            ==> mounted(Some(mount)) == Some(mount.etat_path@),
        (forall|i: int|
            0 <= i < mount.etat_path@.len() ==> is_white_space(#[trigger] mount.etat_path@[i]))
            ==> mounted(Some(mount)) is None,
        mounted(None) is None,
{
    law_trimmed(mount.etat_path@);
}

} // verus!
