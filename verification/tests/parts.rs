//! The parts of the gateway, one at a time.

use opus_mcp::boot::{
    load_static_token, mirror_legacy_env, prepare_environment, Environment, TokenAction,
    TokenEvent, MIRRORED,
};
use opus_mcp::forward::{
    content_type, forward, time_limit_of, url_at, AppState, ForwardAction, ForwardEvent,
    RelayRequest, ReplyHead,
};
use opus_mcp::handler::{
    mcp_handler, request_scopes, CallDecision, HandlerAction, HandlerEvent, HttpMethod, RpcCode,
};
use opus_mcp::names::NameSet;
use opus_mcp::policy::{policy, TablePolicy, ToolClass};
use opus_mcp::router::{
    build_router, build_router_with_filestore, service_config, FileStoreMount, ServiceConfig,
};
use opus_mcp::text::{cut_at, parse_u64, same_text, trim, trim_trailing, white_space};
use opus_mcp::Service;

fn service() -> Service {
    Service {
        slug: "opus".to_string(),
        product: "Opus 5.5".to_string(),
    }
}

fn names(list: &[&str]) -> NameSet {
    let mut set = NameSet::new();
    for name in list {
        set.insert(name);
    }
    set
}

// Text.

#[test]
fn white_space_is_that_of_unicode() {
    for c in '\u{0}'..=char::MAX {
        assert_eq!(white_space(c), c.is_whitespace(), "{:?}", c);
    }
}

#[test]
fn trim_takes_the_white_space_around() {
    for s in [
        "",
        " ",
        "a",
        " a ",
        "\t\u{3000}a b\u{a0}\n",
        "\u{e9} \u{e9}",
        "a\u{200b}",
    ] {
        assert_eq!(trim(s), s.trim());
        assert_eq!(trim(&trim(s)), trim(s));
    }
}

#[test]
fn trailing_slashes_go() {
    assert_eq!(
        trim_trailing("http://127.0.0.1:8794//", '/'),
        "http://127.0.0.1:8794"
    );
    assert_eq!(trim_trailing("///", '/'), "");
    assert_eq!(trim_trailing("/a", '/'), "/a");
    assert_eq!(trim_trailing("", '/'), "");
}

#[test]
fn numbers_are_read_as_std_reads_them() {
    for s in [
        "0",
        "12",
        "+12",
        "007",
        "18446744073709551615",
        "18446744073709551616",
        "99999999999999999999",
        "00000000000000000000000000000000000001",
        "",
        "+",
        "-",
        "++1",
        "-1",
        " 1",
        "1 ",
        "1_0",
        "0x10",
        "\u{661}",
    ] {
        assert_eq!(parse_u64(s), s.parse::<u64>().ok(), "{:?}", s);
    }
    assert_eq!(parse_u64("3600"), Some(3600));
}

#[test]
fn a_cut_keeps_the_first_characters() {
    assert_eq!(cut_at("abcdef", 4), "abcd");
    assert_eq!(cut_at("abc", 4), "abc");
    assert_eq!(cut_at("\u{e9}\u{e9}\u{e9}", 2), "\u{e9}\u{e9}");
    assert_eq!(cut_at("\u{e9}\u{e9}\u{e9}", 3), "\u{e9}\u{e9}\u{e9}");
    assert_eq!(cut_at("a", 0), "");
}

#[test]
fn texts_are_the_same_or_not() {
    assert!(same_text("opus", "opus"));
    assert!(!same_text("opus", "opus "));
    assert!(!same_text("\u{e9}", "e\u{301}"));
}

// Names.

#[test]
fn a_set_holds_each_name_once() {
    let list = vec!["b".to_string(), "a".to_string(), "b".to_string()];
    let set = NameSet::from_list(&list);
    assert_eq!(set.len(), 2);
    assert!(set.contains("a") && set.contains("b") && !set.contains("c"));
    assert!(!set.is_empty());
    assert!(NameSet::new().is_empty());
    let mut out = set.to_list();
    out.sort();
    assert_eq!(out, vec!["a".to_string(), "b".to_string()]);
}

// The service.

#[test]
fn the_slug_makes_the_names_of_the_service() {
    let s = service();
    assert_eq!(s.read_scope(), "opus:lecture");
    assert_eq!(s.write_scope(), "opus:ecriture");
    assert_eq!(
        s.issuer_default(),
        "https://mymcps.duckdns.org/oauth/opus"
    );
    assert_eq!(s.resource_url(), "https://mymcps.duckdns.org/opus/mcp");
    assert_eq!(
        s.resource_name(),
        "delegation de reflexion Opus 5.5 (passerelle)"
    );
    assert_eq!(
        s.prm_alias(),
        "/.well-known/oauth-protected-resource/opus/mcp"
    );
    assert_eq!(
        s.prm_url(),
        "https://mymcps.duckdns.org/.well-known/oauth-protected-resource/opus/mcp"
    );
    assert_eq!(s.static_client_id(), "opus-mcp-cli-statique");
    assert_eq!(s.name(), "opus-mcp");
    assert_eq!(s.token_file_default(), "/opt/opus-gateway-rs/.mcp_token");
}

// The policy.

#[test]
fn refusals_name_the_scope_or_the_tool() {
    let p = policy(&service());
    assert_eq!(
        p.autoriser_call("opus_health", &names(&[])).as_deref(),
        Some("portee requise : opus:lecture")
    );
    assert_eq!(
        p.autoriser_call("opus_session", &names(&["opus:lecture"]))
            .as_deref(),
        Some("portee requise : opus:ecriture")
    );
    assert_eq!(
        p.autoriser_call("opus_admin", &names(&["opus:lecture", "opus:ecriture"]))
            .as_deref(),
        Some("outil inconnu (fail-closed) : opus_admin")
    );
}

#[test]
fn the_write_scope_opens_the_tool_that_reads() {
    let p = policy(&service());
    let write = names(&["opus:ecriture"]);
    assert!(p.autoriser_call("opus_health", &write).is_none());
    assert_eq!(p.visibles(&write).len(), 3);
}

#[test]
fn what_is_visible_can_be_called() {
    let p = policy(&service());
    for scopes in [
        names(&[]),
        names(&["opus:lecture"]),
        names(&["opus:ecriture"]),
        names(&["autre"]),
    ] {
        let seen = p.visibles(&scopes);
        for tool in ["opus_health", "opus_think", "opus_session", "opus_admin", ""] {
            assert_eq!(
                seen.contains(tool),
                p.autoriser_call(tool, &scopes).is_none()
            );
        }
    }
}

#[test]
fn the_later_entry_of_a_tool_counts() {
    let p = TablePolicy::new(
        "r",
        "w",
        vec![
            ("t".to_string(), ToolClass::Read),
            ("t".to_string(), ToolClass::Write),
        ],
    );
    assert_eq!(p.classify("t"), ToolClass::Write);
    assert!(p.visibles(&names(&["r"])).is_empty());
    assert_eq!(p.visibles(&names(&["w"])).len(), 1);
}

// The handler.

fn decided(scopes: &NameSet, decision: CallDecision<u8>) -> HandlerAction<u8> {
    mcp_handler(
        &policy(&service()),
        scopes,
        HttpMethod::Post,
        HandlerEvent::Decided {
            body: vec![1, 2, 3],
            decision,
        },
    )
}

fn rpc(action: HandlerAction<u8>) -> (u16, Option<u8>, RpcCode, String) {
    match action {
        HandlerAction::RpcError {
            status,
            id,
            code,
            message,
        } => (status, id, code, message),
        _ => panic!("no error"),
    }
}

#[test]
fn what_cannot_be_judged_is_refused() {
    let all = names(&["opus:lecture", "opus:ecriture"]);
    assert_eq!(
        rpc(decided(&all, CallDecision::ParseError)),
        (
            200,
            None,
            RpcCode::Parse,
            "corps JSON-RPC illisible (fail-closed)".to_string()
        )
    );
    assert_eq!(
        rpc(decided(&all, CallDecision::BatchRejected)),
        (
            200,
            None,
            RpcCode::Batch,
            "requetes par lot non prises en charge".to_string()
        )
    );
    assert_eq!(
        rpc(decided(&all, CallDecision::Nameless { id: Some(4) })),
        (
            200,
            Some(4),
            RpcCode::App,
            "tools/call sans nom d'outil (fail-closed)".to_string()
        )
    );
}

#[test]
fn what_is_allowed_goes_on_as_it_came() {
    let read = names(&["opus:lecture"]);
    let call = CallDecision::Call {
        id: Some(1),
        name: "opus_health".to_string(),
    };
    assert!(matches!(
        decided(&read, call),
        HandlerAction::Forward(Some(b)) if b == [1, 2, 3]
    ));
    assert!(matches!(
        decided(&names(&[]), CallDecision::Passthrough),
        HandlerAction::Forward(Some(b)) if b == [1, 2, 3]
    ));
}

#[test]
fn bodies_are_read_where_there_can_be_one() {
    let p = policy(&service());
    let none = request_scopes(None);
    assert!(none.is_empty());
    for method in [HttpMethod::Post, HttpMethod::Put, HttpMethod::Patch] {
        assert!(matches!(
            mcp_handler::<u8>(&p, &none, method, HandlerEvent::Received),
            HandlerAction::ReadBody
        ));
    }
    for method in [HttpMethod::Get, HttpMethod::Delete, HttpMethod::Other] {
        assert!(matches!(
            mcp_handler::<u8>(&p, &none, method, HandlerEvent::Received),
            HandlerAction::Forward(None)
        ));
    }
    assert!(matches!(
        mcp_handler::<u8>(&p, &none, HttpMethod::Post, HandlerEvent::BodyRead(None)),
        HandlerAction::PayloadTooLarge { status: 413 }
    ));
    assert!(matches!(
        mcp_handler::<u8>(
            &p,
            &none,
            HttpMethod::Post,
            HandlerEvent::BodyRead(Some(vec![]))
        ),
        HandlerAction::Forward(None)
    ));
    assert!(matches!(
        mcp_handler::<u8>(&p, &none, HttpMethod::Post, HandlerEvent::BodyRead(Some(vec![9]))),
        HandlerAction::Decide { body } if body == [9]
    ));
}

// The relay.

fn app() -> AppState {
    AppState {
        upstream: "http://127.0.0.1:8794".to_string(),
        static_client_id: "opus-mcp-cli-statique".to_string(),
        policy: policy(&service()),
    }
}

fn asked(identite: Option<&str>) -> RelayRequest {
    RelayRequest {
        path: "/mcp".to_string(),
        query: Some("a=1".to_string()),
        headers: vec![("accept".to_string(), b"*/*".to_vec())],
        body: None,
        identite: identite.map(|s| s.to_string()),
        post_timeout: Some("90".to_string()),
    }
}

#[test]
fn addresses_at_the_upstream() {
    assert_eq!(url_at("http://u", "/mcp", None), "http://u/mcp");
    assert_eq!(url_at("http://u", "/mcp", Some("")), "http://u/mcp");
    assert_eq!(url_at("http://u", "/mcp", Some("a=1")), "http://u/mcp?a=1");
}

#[test]
fn only_a_post_has_a_time_limit() {
    let set = |s: &str| Some(s.to_string());
    assert_eq!(time_limit_of(HttpMethod::Post, &None), Some(3600));
    assert_eq!(time_limit_of(HttpMethod::Post, &set("60")), Some(60));
    assert_eq!(time_limit_of(HttpMethod::Post, &set(" 60")), Some(3600));
    assert_eq!(time_limit_of(HttpMethod::Post, &set("")), Some(3600));
    assert_eq!(time_limit_of(HttpMethod::Get, &set("60")), None);
    assert_eq!(time_limit_of(HttpMethod::Delete, &None), None);
}

#[test]
fn other_clients_are_relayed_as_oauth() {
    let none = names(&[]);
    match forward(
        &app(),
        &none,
        HttpMethod::Get,
        ForwardEvent::Admitted(asked(Some("client-synth"))),
    ) {
        ForwardAction::Send(out) => {
            assert_eq!(out.method, HttpMethod::Get);
            assert_eq!(out.url, "http://127.0.0.1:8794/mcp?a=1");
            assert_eq!(
                out.headers,
                vec![
                    ("accept".to_string(), b"*/*".to_vec()),
                    ("x-astra-gw-acteur".to_string(), b"client-synth".to_vec()),
                    ("x-astra-gw-mode".to_string(), b"oauth".to_vec()),
                ]
            );
            assert_eq!(out.timeout_secs, None);
        }
        _ => panic!("not sent"),
    }
}

#[test]
fn without_an_identity_no_actor_is_told() {
    for identite in [None, Some("")] {
        match forward(
            &app(),
            &names(&[]),
            HttpMethod::Post,
            ForwardEvent::Admitted(asked(identite)),
        ) {
            ForwardAction::Send(out) => {
                assert_eq!(out.headers.len(), 1);
                assert_eq!(out.timeout_secs, Some(90));
            }
            _ => panic!("not sent"),
        }
    }
}

fn is_bad_gateway(action: ForwardAction) -> bool {
    matches!(action, ForwardAction::BadGateway { status: 502, detail } if detail == "HttpError")
}

#[test]
fn an_actor_that_no_header_can_tell_is_not_sent() {
    for identite in ["a\nb", "a\u{7f}", "\u{0}"] {
        assert!(is_bad_gateway(forward(
            &app(),
            &names(&[]),
            HttpMethod::Post,
            ForwardEvent::Admitted(asked(Some(identite)))
        )));
    }
    for identite in ["a\tb", "\u{e9}", " "] {
        assert!(matches!(
            forward(
                &app(),
                &names(&[]),
                HttpMethod::Post,
                ForwardEvent::Admitted(asked(Some(identite)))
            ),
            ForwardAction::Send(_)
        ));
    }
}

fn head(status: u16) -> ReplyHead {
    ReplyHead {
        status,
        headers: vec![("etag".to_string(), b"1".to_vec())],
    }
}

#[test]
fn the_reply_keeps_the_status_that_came() {
    for (came, kept) in [(100, 100), (200, 200), (999, 999), (99, 502), (1000, 502), (0, 502)] {
        match forward(
            &app(),
            &names(&[]),
            HttpMethod::Get,
            ForwardEvent::Sent(Some(head(came))),
        ) {
            ForwardAction::Stream(out) => {
                assert_eq!(out.status, kept);
                assert_eq!(out.headers, head(came).headers);
            }
            _ => panic!("not streamed"),
        }
        match forward(
            &app(),
            &names(&[]),
            HttpMethod::Delete,
            ForwardEvent::Sent(Some(head(came))),
        ) {
            ForwardAction::ReadBody(out) => assert_eq!(out.status, kept),
            _ => panic!("not read"),
        }
    }
}

#[test]
fn a_failed_exchange_is_a_bad_gateway() {
    for method in [HttpMethod::Get, HttpMethod::Post, HttpMethod::Delete] {
        assert!(is_bad_gateway(forward(
            &app(),
            &names(&[]),
            method,
            ForwardEvent::Sent(None)
        )));
    }
    assert!(is_bad_gateway(forward(
        &app(),
        &names(&[]),
        HttpMethod::Post,
        ForwardEvent::BodyRead {
            head: head(200),
            read: None
        }
    )));
}

#[test]
fn only_the_reply_to_a_post_is_filtered() {
    match forward(
        &app(),
        &names(&["opus:lecture"]),
        HttpMethod::Delete,
        ForwardEvent::BodyRead {
            head: head(204),
            read: Some(vec![7]),
        },
    ) {
        ForwardAction::Respond { head, body } => {
            assert_eq!(head.status, 204);
            assert_eq!(body, [7]);
        }
        _ => panic!("no reply"),
    }
    match forward(
        &app(),
        &names(&["opus:lecture"]),
        HttpMethod::Post,
        ForwardEvent::BodyRead {
            head: head(200),
            read: Some(vec![7]),
        },
    ) {
        ForwardAction::FilterTools {
            body,
            content_type,
            visible,
            ..
        } => {
            assert_eq!(body, [7]);
            assert_eq!(content_type, "");
            assert_eq!(visible.to_list(), vec!["opus_health".to_string()]);
        }
        _ => panic!("not filtered"),
    }
}

#[test]
fn the_type_of_the_content_is_the_first_that_is_announced() {
    let h = |name: &str, value: &[u8]| (name.to_string(), value.to_vec());
    assert_eq!(content_type(&vec![]), "");
    assert_eq!(
        content_type(&vec![
            h("accept", b"x"),
            h("content-type", b"text/event-stream"),
            h("content-type", b"text/plain")
        ]),
        "text/event-stream"
    );
    assert_eq!(content_type(&vec![h("content-type", b"caf\xe9")]), "");
    assert_eq!(content_type(&vec![h("content-type", b"a\tb")]), "a\tb");
}

// The assembly.

fn config(upstream: &str) -> ServiceConfig {
    service_config(
        &service(),
        upstream.to_string(),
        "t".repeat(32),
        vec!["opus:lecture".to_string()],
        "https://issuer".to_string(),
        "hash".to_string(),
        10,
    )
}

#[test]
fn the_configuration_of_the_service() {
    let cfg = config("http://u/");
    assert_eq!(cfg.upstream, "http://u/");
    assert_eq!(cfg.static_token, "t".repeat(32));
    assert_eq!(cfg.oauth.issuer, "https://issuer");
    assert_eq!(cfg.oauth.default_scope, "opus:lecture");
    assert_eq!(
        cfg.oauth.valid_scopes,
        vec!["opus:lecture".to_string(), "opus:ecriture".to_string()]
    );
    assert_eq!(
        cfg.oauth.extra_submit_scopes,
        vec!["opus:ecriture".to_string()]
    );
    assert_eq!(cfg.oauth.consent_hash, "hash");
    assert_eq!(cfg.oauth.static_client_id, "opus-mcp-cli-statique");
}

#[test]
fn the_upstream_loses_its_trailing_slashes() {
    let plan = build_router(&service(), config("http://127.0.0.1:8794//"));
    assert_eq!(plan.app.upstream, "http://127.0.0.1:8794");
    assert_eq!(plan.static_token.client_id, "opus-mcp-cli-statique");
    assert_eq!(plan.auth.required_scopes, vec!["opus:lecture".to_string()]);
}

#[test]
fn a_blank_session_file_is_none() {
    for (path, kept) in [("", None), (" \t", None), (" /e.json", Some(" /e.json"))] {
        let plan = build_router_with_filestore(
            &service(),
            config("http://u"),
            Some(FileStoreMount {
                etat_path: path.to_string(),
                expected_resource: None,
            }),
        );
        assert_eq!(plan.file_store.as_deref(), kept);
    }
    let plan = build_router_with_filestore(&service(), config("http://u"), None);
    assert!(plan.file_store.is_none());
}

// Start-up.

fn env(list: &[(&str, &str)]) -> Environment {
    let mut env = Environment::new();
    for (name, value) in list {
        env.set(name, value);
    }
    env
}

#[test]
fn former_names_fill_in_for_blank_ones() {
    let mut e = env(&[
        ("OPUS_GW_RS_PORT", "1"),
        ("ASTRA_GW_RS_PORT", "2"),
        ("OPUS_GW_RS_ISSUER", "  "),
        ("ASTRA_GW_RS_ISSUER", " https://i "),
        ("ASTRA_GW_RS_JWT_SECRET", "s"),
        ("ASTRA_GW_RS_TOKEN", " "),
        ("ASTRA_GW_RS_SLUG", "x"),
    ]);
    mirror_legacy_env(&mut e);
    assert_eq!(e.get("OPUS_GW_RS_PORT").as_deref(), Some("1"));
    assert_eq!(e.get("OPUS_GW_RS_ISSUER").as_deref(), Some(" https://i "));
    assert_eq!(e.get("OPUS_GW_RS_JWT_SECRET").as_deref(), Some("s"));
    assert_eq!(e.get("OPUS_GW_RS_TOKEN"), None);
    assert_eq!(e.get("OPUS_GW_RS_SLUG"), None);
    assert_eq!(e.get("ASTRA_GW_RS_PORT").as_deref(), Some("2"));
    let before = e.to_list();
    mirror_legacy_env(&mut e);
    assert_eq!(e.to_list(), before);
}

#[test]
fn every_mirrored_setting_is_taken_over() {
    for suffix in MIRRORED {
        let mut e = Environment::new();
        e.set(&format!("ASTRA_GW_RS_{suffix}"), "v");
        mirror_legacy_env(&mut e);
        assert_eq!(
            e.get(&format!("OPUS_GW_RS_{suffix}")).as_deref(),
            Some("v")
        );
    }
}

#[test]
fn settings_have_defaults() {
    let mut e = Environment::new();
    prepare_environment(&service(), &mut e);
    assert_eq!(
        e.get("OPUS_GW_RS_ISSUER").as_deref(),
        Some("https://mymcps.duckdns.org/oauth/opus")
    );
    assert_eq!(
        e.get("OPUS_GW_RS_UPSTREAM").as_deref(),
        Some("http://127.0.0.1:8794")
    );
    assert_eq!(
        e.get("OPUS_GW_RS_OAUTH_ETAT").as_deref(),
        Some("/srv/astra/gateway-oauth/etat.json")
    );
    assert_eq!(
        e.get("OPUS_GW_RS_TOKEN_SCOPES").as_deref(),
        Some("opus:lecture opus:ecriture")
    );
}

#[test]
fn what_is_set_stays_and_a_blank_session_file_stays_out() {
    let mut e = env(&[
        ("OPUS_GW_RS_UPSTREAM", "http://127.0.0.1:1"),
        ("OPUS_GW_RS_ISSUER", ""),
        ("OPUS_GW_RS_OAUTH_ETAT", ""),
    ]);
    prepare_environment(&service(), &mut e);
    assert_eq!(
        e.get("OPUS_GW_RS_UPSTREAM").as_deref(),
        Some("http://127.0.0.1:1")
    );
    assert_eq!(
        e.get("OPUS_GW_RS_ISSUER").as_deref(),
        Some("https://mymcps.duckdns.org/oauth/opus")
    );
    assert_eq!(e.get("OPUS_GW_RS_OAUTH_ETAT").as_deref(), Some(""));
    assert!(e.is_blank("OPUS_GW_RS_OAUTH_ETAT"));
}

fn settings(token: Option<&str>, token_file: Option<&str>) -> TokenAction {
    load_static_token(
        &service(),
        TokenEvent::Settings {
            token: token.map(|s| s.to_string()),
            token_file: token_file.map(|s| s.to_string()),
        },
    )
}

#[test]
fn the_token_comes_from_the_variable_first() {
    let long = "k".repeat(32);
    assert!(matches!(settings(Some(&format!(" {long}\n")), None), TokenAction::Ready(t) if t == long));
    assert!(matches!(
        settings(Some("court"), None),
        TokenAction::Fail(e) if e == "OPUS_GW_RS_TOKEN trop court (<32 car.)"
    ));
    for blank in [None, Some(""), Some(" \n")] {
        assert!(matches!(
            settings(blank, Some(" ")),
            TokenAction::ReadFile { path } if path == "/opt/opus-gateway-rs/.mcp_token"
        ));
        assert!(matches!(
            settings(blank, Some("/t")),
            TokenAction::ReadFile { path } if path == "/t"
        ));
    }
}

fn read(path: &str, content: Result<&str, &str>) -> TokenAction {
    load_static_token(
        &service(),
        TokenEvent::FileRead {
            path: path.to_string(),
            content: content.map(|s| s.to_string()).map_err(|s| s.to_string()),
        },
    )
}

#[test]
fn the_token_file_is_trimmed_and_measured() {
    let long = "k".repeat(32);
    assert!(matches!(read("/t", Ok(&format!("{long}\n"))), TokenAction::Ready(t) if t == long));
    for short in ["", "   ", "k", &"k".repeat(31), &"\u{e9}".repeat(31)] {
        assert!(matches!(
            read("/t", Ok(short)),
            TokenAction::Fail(e)
                if e == "token Bearer trop court (<32 car.), refuse de demarrer"
        ));
    }
    assert!(matches!(
        read("/t", Err("absent")),
        TokenAction::Fail(e) if e == "token Bearer illisible (/t) : absent"
    ));
}

#[test]
fn the_default_token_file_has_a_fallback() {
    let default = "/opt/opus-gateway-rs/.mcp_token";
    assert!(matches!(
        read(default, Err("absent")),
        TokenAction::ReadFallback { path, error } if path == default && error == "absent"
    ));
    let fallback = |content: Option<&str>| {
        load_static_token(
            &service(),
            TokenEvent::FallbackRead {
                path: default.to_string(),
                error: "absent".to_string(),
                fallback: content.map(|s| s.to_string()),
            },
        )
    };
    let long = "k".repeat(40);
    assert!(matches!(fallback(Some(&long)), TokenAction::Ready(t) if t == long));
    assert!(matches!(
        fallback(Some("k")),
        TokenAction::Fail(e) if e == "token Bearer trop court (<32 car.), refuse de demarrer"
    ));
    assert!(matches!(
        fallback(None),
        TokenAction::Fail(e) if e == "token Bearer illisible (/opt/opus-gateway-rs/.mcp_token puis /opt/astra-gateway-rs/.mcp_token) : absent"
    ));
}
