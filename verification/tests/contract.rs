//! The contract of the service: the tool policy, admission, the answers that the
//! gateway gives itself, and what it relays.

use opus_mcp::auth::{AuthAction, AuthEvent, AuthState, Grant, PlainReply};
use opus_mcp::forward::{ForwardAction, ForwardEvent, RelayRequest, ReplyHead};
use opus_mcp::handler::{CallDecision, HandlerAction, HandlerEvent, HttpMethod, RpcCode, APP_CODE};
use opus_mcp::names::NameSet;
use opus_mcp::policy::ToolClass;
use opus_mcp::router::{FileStoreMount, OAuthConfig, RouterPlan};
use opus_mcp::{
    acteur_middleware, build_router, build_router_with_filestore, forward, mcp_handler, policy,
    Service, ServiceConfig, OUTILS_ECRITURE, OUTILS_LECTURE,
};

const READ_SCOPE: &str = "opus:lecture";
const WRITE_SCOPE: &str = "opus:ecriture";

fn service() -> Service {
    Service {
        slug: "opus".to_string(),
        product: "Opus 5.5".to_string(),
    }
}

fn scopes(s: &[&str]) -> NameSet {
    let list: Vec<String> = s.iter().map(|x| x.to_string()).collect();
    NameSet::from_list(&list)
}

#[test]
fn tailles_politique_1r_2w() {
    assert_eq!(&OUTILS_LECTURE, &["opus_health"]);
    assert_eq!(&OUTILS_ECRITURE, &["opus_think", "opus_session"]);
}

#[test]
fn matrice_autorisation() {
    let p = policy(&service());
    assert_eq!(p.classify("opus_health"), ToolClass::Read);
    assert!(p
        .autoriser_call("opus_health", &scopes(&[READ_SCOPE]))
        .is_none());
    for tool in OUTILS_ECRITURE {
        assert_eq!(p.classify(tool), ToolClass::Write, "outil {tool}");
        assert!(p.autoriser_call(tool, &scopes(&[READ_SCOPE])).is_some());
        assert!(p
            .autoriser_call(tool, &scopes(&[READ_SCOPE, WRITE_SCOPE]))
            .is_none());
    }
    assert_eq!(p.classify("opus_admin"), ToolClass::Unknown);
    assert!(p
        .autoriser_call("opus_admin", &scopes(&[READ_SCOPE, WRITE_SCOPE]))
        .is_some());
}

#[test]
fn visibles_1_3() {
    let p = policy(&service());
    assert_eq!(p.visibles(&scopes(&[READ_SCOPE])).len(), 1);
    assert_eq!(p.visibles(&scopes(&[READ_SCOPE, WRITE_SCOPE])).len(), 3);
    assert!(p.visibles(&scopes(&[])).is_empty());
}

fn oauth_cfg() -> OAuthConfig {
    OAuthConfig {
        issuer: "https://mymcps.duckdns.org/oauth/opus".to_string(),
        resource_url: service().resource_url(),
        resource_name: service().resource_name(),
        default_scope: READ_SCOPE.to_string(),
        valid_scopes: vec![READ_SCOPE.to_string(), WRITE_SCOPE.to_string()],
        extra_submit_scopes: vec![WRITE_SCOPE.to_string()],
        consent_hash: String::new(),
        static_client_id: service().static_client_id(),
    }
}

fn cfg(upstream: &str, token: &str, token_scopes: &[&str]) -> ServiceConfig {
    ServiceConfig {
        upstream: upstream.to_string(),
        static_token: token.to_string(),
        static_token_scopes: token_scopes.iter().map(|x| x.to_string()).collect(),
        oauth: oauth_cfg(),
        max_body_bytes: 1024 * 1024,
    }
}

fn gateway_test() -> RouterPlan {
    build_router(&service(), cfg(
        "http://127.0.0.1:9",
        &"x".repeat(32),
        &[READ_SCOPE, WRITE_SCOPE],
    ))
}

/// Runs admission: `stores` is what the session stores know of the token.
fn run_admission(
    plan: &RouterPlan,
    bearer: Option<&str>,
    stores: fn(&str) -> Option<Grant>,
) -> Result<(NameSet, String), PlainReply> {
    let mut event = AuthEvent::Bearer(bearer.map(|t| t.to_string()));
    loop {
        event = match acteur_middleware(&plan.auth, event) {
            AuthAction::CheckStatic { token } => {
                let found = if token == plan.static_token.token {
                    Some(Grant {
                        client_id: plan.static_token.client_id.clone(),
                        scopes: NameSet::from_list(&plan.static_token.scopes),
                    })
                } else {
                    None
                };
                AuthEvent::StaticChecked { token, found }
            }
            AuthAction::Resolve { token } => AuthEvent::Resolved {
                found: stores(&token),
            },
            AuthAction::Refuse(reply) => return Err(reply),
            AuthAction::Admit { scopes, identity } => return Ok((scopes, identity.0)),
        };
    }
}

fn nothing(_: &str) -> Option<Grant> {
    None
}

/// Runs the handler on a body whose message asks for `decision`.
fn run_handler(
    plan: &RouterPlan,
    scopes: &NameSet,
    method: HttpMethod,
    body: Option<Vec<u8>>,
    decision: CallDecision<i64>,
) -> HandlerAction<i64> {
    let mut decision = Some(decision);
    let mut body = Some(body);
    let mut event = HandlerEvent::Received;
    loop {
        event = match mcp_handler(&plan.app.policy, scopes, method, event) {
            HandlerAction::ReadBody => HandlerEvent::BodyRead(body.take().unwrap()),
            HandlerAction::Decide { body } => HandlerEvent::Decided {
                body,
                decision: decision.take().unwrap(),
            },
            last => return last,
        };
    }
}

#[test]
fn mcp_sans_bearer_401_avec_prm_opus() {
    let plan = gateway_test();
    let reply = match run_admission(&plan, None, nothing) {
        Err(reply) => reply,
        Ok(_) => panic!("admitted"),
    };
    assert_eq!(reply.status, 401);
    assert_eq!(reply.body, "Unauthorized");
    assert_eq!(reply.headers.len(), 1);
    assert_eq!(reply.headers[0].0, "www-authenticate");
    let challenge = &reply.headers[0].1;
    assert!(
        challenge.contains("oauth-protected-resource/opus/mcp"),
        "{challenge}"
    );
    assert_eq!(
        challenge,
        "Bearer resource_metadata=\"https://mymcps.duckdns.org/.well-known/oauth-protected-resource/opus/mcp\""
    );
}

#[test]
fn health_et_prm_opus() {
    let plan = gateway_test();
    assert_eq!(plan.service_name, "opus-mcp");
    assert_eq!(plan.mcp_path, "/mcp");
    assert_eq!(plan.prm_aliases, vec![service().prm_alias()]);
    assert_eq!(
        service().prm_alias(),
        "/.well-known/oauth-protected-resource/opus/mcp"
    );
    assert_eq!(plan.oauth.resource_url, service().resource_url());
    assert_eq!(
        plan.mcp_methods,
        vec![HttpMethod::Get, HttpMethod::Post, HttpMethod::Delete]
    );
    assert_eq!(plan.connect_timeout_secs, 5);
    assert_eq!(plan.pool_max_idle_per_host, 50);
    assert_eq!(plan.max_body_bytes, 1024 * 1024);
    assert!(plan.file_store.is_none());
}

#[test]
fn ecriture_sans_portee_refusee_avant_upstream() {
    let token = "y".repeat(32);
    let plan = build_router(&service(), cfg("http://127.0.0.1:9", &token, &[READ_SCOPE]));
    let (granted, _) = match run_admission(&plan, Some(&token), nothing) {
        Ok(admitted) => admitted,
        Err(_) => panic!("refused"),
    };
    let body = br#"{"jsonrpc":"2.0","id":7,"method":"tools/call","params":{"name":"opus_think","arguments":{}}}"#;
    let answer = run_handler(
        &plan,
        &granted,
        HttpMethod::Post,
        Some(body.to_vec()),
        CallDecision::Call {
            id: Some(7),
            name: "opus_think".to_string(),
        },
    );
    match answer {
        HandlerAction::RpcError {
            status,
            id,
            code,
            message,
        } => {
            assert_eq!(status, 200);
            assert_eq!(id, Some(7));
            assert_eq!(code, RpcCode::App);
            assert_eq!(APP_CODE, -32000);
            assert!(message.contains("opus:ecriture"), "{message}");
        }
        _ => panic!("not refused"),
    }
}

fn header(name: &str, value: &str) -> (String, Vec<u8>) {
    (name.to_string(), value.as_bytes().to_vec())
}

#[test]
fn relais_injecte_acteur() {
    let plan = build_router(&service(), cfg(
        "http://127.0.0.1:4321",
        &"x".repeat(32),
        &[READ_SCOPE, WRITE_SCOPE],
    ));
    let (granted, identity) = match run_admission(&plan, Some(&"x".repeat(32)), nothing) {
        Ok(admitted) => admitted,
        Err(_) => panic!("refused"),
    };
    let body = br#"{"jsonrpc":"2.0","id":1,"method":"tools/list","params":{}}"#.to_vec();
    let sent = match run_handler(
        &plan,
        &granted,
        HttpMethod::Post,
        Some(body.clone()),
        CallDecision::Passthrough,
    ) {
        HandlerAction::Forward(sent) => sent,
        _ => panic!("not handed on"),
    };
    assert_eq!(sent, Some(body.clone()));
    let token = format!("Bearer {}", "x".repeat(32));
    let received = vec![
        header("authorization", &token),
        header("content-type", "application/json"),
        header("accept", "application/json, text/event-stream"),
    ];
    let handed_on = received
        .into_iter()
        .filter(|h| h.0 != "authorization")
        .collect();
    let request = RelayRequest {
        path: "/mcp".to_string(),
        query: None,
        headers: handed_on,
        body: sent,
        identite: Some(identity),
        post_timeout: None,
    };
    let out = match forward(
        &plan.app,
        &granted,
        HttpMethod::Post,
        ForwardEvent::Admitted(request),
    ) {
        ForwardAction::Send(out) => out,
        _ => panic!("not sent"),
    };
    assert_eq!(out.method, HttpMethod::Post);
    assert_eq!(out.url, "http://127.0.0.1:4321/mcp");
    assert_eq!(
        out.headers,
        vec![
            header("content-type", "application/json"),
            header("accept", "application/json, text/event-stream"),
            header("x-astra-gw-acteur", "opus-mcp-cli-statique"),
            header("x-astra-gw-mode", "cli"),
        ]
    );
    assert!(out
        .headers
        .iter()
        .all(|h| h.0 != "authorization" && h.1 != token.as_bytes()));
    assert_eq!(out.timeout_secs, Some(3600));
    assert_eq!(out.body, Some(body));

    let reply = br#"{"jsonrpc":"2.0","id":1,"result":{"tools":[{"name":"opus_health","description":"d","inputSchema":{"type":"object"}}]}}"#.to_vec();
    let head = match forward(
        &plan.app,
        &granted,
        HttpMethod::Post,
        ForwardEvent::Sent(Some(ReplyHead {
            status: 200,
            headers: vec![header("content-type", "application/json")],
        })),
    ) {
        ForwardAction::ReadBody(head) => head,
        _ => panic!("body not read"),
    };
    let (head, kept) = match forward(
        &plan.app,
        &granted,
        HttpMethod::Post,
        ForwardEvent::BodyRead {
            head,
            read: Some(reply.clone()),
        },
    ) {
        ForwardAction::FilterTools {
            head,
            body,
            content_type,
            visible,
        } => {
            assert_eq!(content_type, "application/json");
            assert_eq!(visible.len(), 3);
            (head, body)
        }
        _ => panic!("not filtered"),
    };
    match forward(
        &plan.app,
        &granted,
        HttpMethod::Post,
        ForwardEvent::Filtered { head, body: kept },
    ) {
        ForwardAction::Respond { head, body } => {
            assert_eq!(head.status, 200);
            assert_eq!(body, reply);
        }
        _ => panic!("no reply"),
    }
}

fn one_session(token: &str) -> Option<Grant> {
    if token == "synthetique-opus-pont-0123456789001" {
        Some(Grant {
            client_id: "client-synth".to_string(),
            scopes: scopes(&["opus:lecture"]),
        })
    } else {
        None
    }
}

#[test]
fn pont_fichier_session_existante_passe_bearer() {
    let etat = "/tmp/opus-pont/etat.json";
    let plan = build_router_with_filestore(
        &service(),
        cfg("http://127.0.0.1:9", &"x".repeat(32), &[READ_SCOPE]),
        Some(FileStoreMount {
            etat_path: etat.to_string(),
            expected_resource: None,
        }),
    );
    assert_eq!(plan.file_store.as_deref(), Some(etat));
    let tok = "synthetique-opus-pont-0123456789001";
    let (granted, identity) = match run_admission(&plan, Some(tok), one_session) {
        Ok(admitted) => admitted,
        Err(_) => panic!("refused"),
    };
    assert_eq!(identity, "client-synth");
    let body =
        br#"{"jsonrpc":"2.0","id":1,"method":"tools/call","params":{"name":"outil-x"}}"#.to_vec();
    match run_handler(
        &plan,
        &granted,
        HttpMethod::Post,
        Some(body),
        CallDecision::Call {
            id: Some(1),
            name: "outil-x".to_string(),
        },
    ) {
        HandlerAction::RpcError {
            status, id, code, ..
        } => {
            assert_eq!(status, 200);
            assert_eq!(id, Some(1));
            assert_eq!(code, RpcCode::App);
            assert_eq!(APP_CODE, -32000);
        }
        _ => panic!("not refused"),
    }
    match run_admission(&plan, Some("opaque-inconnu"), one_session) {
        Err(reply) => assert_eq!(reply.status, 401),
        Ok(_) => panic!("admitted"),
    }
}

#[test]
fn a_token_without_the_read_scope_is_forbidden() {
    let token = "z".repeat(40);
    let plan = build_router(&service(), cfg("http://127.0.0.1:9", &token, &[WRITE_SCOPE]));
    match run_admission(&plan, Some(&token), nothing) {
        Err(reply) => {
            assert_eq!(reply.status, 403);
            assert_eq!(reply.body, "Forbidden");
            assert!(reply.headers.is_empty());
        }
        Ok(_) => panic!("admitted"),
    }
}

fn identity_of(client_id: &str) -> String {
    let state = AuthState {
        required_scopes: vec![READ_SCOPE.to_string()],
        prm_url: String::new(),
    };
    let found = Some(Grant {
        client_id: client_id.to_string(),
        scopes: scopes(&[READ_SCOPE]),
    });
    match acteur_middleware(&state, AuthEvent::Resolved { found }) {
        AuthAction::Admit { identity, .. } => identity.0,
        _ => panic!("refused"),
    }
}

#[test]
fn an_identity_keeps_128_characters() {
    assert_eq!(identity_of("court"), "court");
    assert_eq!(identity_of(""), "");
    assert_eq!(identity_of(&"a".repeat(128)), "a".repeat(128));
    assert_eq!(identity_of(&"a".repeat(129)), "a".repeat(128));
    assert_eq!(identity_of(&"\u{e9}".repeat(100)), "\u{e9}".repeat(100));
    assert_eq!(identity_of(&"\u{e9}".repeat(200)), "\u{e9}".repeat(128));
    let odd = format!("a{}", "\u{20ac}".repeat(200));
    assert_eq!(identity_of(&odd), format!("a{}", "\u{20ac}".repeat(127)));
}

fn long_session(_: &str) -> Option<Grant> {
    Some(Grant {
        client_id: "\u{e9}".repeat(200),
        scopes: scopes(&[READ_SCOPE]),
    })
}

#[test]
fn a_session_client_is_relayed_as_oauth() {
    let plan = gateway_test();
    let (granted, identity) = match run_admission(&plan, Some("jeton"), long_session) {
        Ok(admitted) => admitted,
        Err(_) => panic!("refused"),
    };
    let request = RelayRequest {
        path: "/mcp".to_string(),
        query: None,
        headers: vec![header("accept", "*/*")],
        body: None,
        identite: Some(identity),
        post_timeout: None,
    };
    match forward(
        &plan.app,
        &granted,
        HttpMethod::Delete,
        ForwardEvent::Admitted(request),
    ) {
        ForwardAction::Send(out) => {
            assert_eq!(out.method, HttpMethod::Delete);
            assert_eq!(
                out.headers,
                vec![
                    header("accept", "*/*"),
                    header("x-astra-gw-acteur", &"\u{e9}".repeat(128)),
                    header("x-astra-gw-mode", "oauth"),
                ]
            );
        }
        _ => panic!("not sent"),
    }
}
