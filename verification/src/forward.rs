//! The relay to the upstream: the request that is sent there, and the reply that is
//! made of what comes back. The caller sends, reads and filters; the decisions
//! stand here.

use vstd::prelude::*;
use vstd::utf8::encode_utf8;

use crate::handler::{body_view, HttpMethod};
use crate::names::NameSet;
use crate::policy::{PolicyModel, TablePolicy};
use crate::text::{parse_u64, parsed_u64, same_text};
use crate::wire::{
    header_text, header_to_str, header_value_accepts, is_header_value, is_status, status_from_u16,
};

verus! {

/// The header that tells the upstream who makes the request.
pub const ACTOR_HEADER: &'static str = "x-astra-gw-acteur";

/// The header that tells the upstream how the client was authenticated.
pub const MODE_HEADER: &'static str = "x-astra-gw-mode";

/// The variable that sets the time limit of a POST, in seconds.
pub const POST_TIMEOUT_VARIABLE: &'static str = "OPUS_GW_RS_POST_TIMEOUT_SECS";

/// The time limit of a POST, in seconds, where nothing else is set. It covers the
/// whole exchange, the streamed body of the reply included.
pub const POST_TIMEOUT_SECS: u64 = 3600;

/// What the relay goes by: where the upstream is, which client is the static one,
/// and the tool policy.
pub struct AppState {
    pub upstream: String,
    pub static_client_id: String,
    pub policy: TablePolicy,
}

/// What the relay goes by, as a value.
pub struct AppModel {
    pub upstream: Seq<char>,
    pub static_client_id: Seq<char>,
    pub policy: PolicyModel,
}

impl View for AppState {
    type V = AppModel;

    open spec fn view(&self) -> AppModel {
        AppModel {
            upstream: self.upstream@,
            static_client_id: self.static_client_id@,
            policy: self.policy@,
        }
    }
}

/// Headers as values: names in lower case, and the bytes of each.
pub open spec fn headers_view(headers: Seq<(String, Vec<u8>)>) -> Seq<(Seq<char>, Seq<u8>)> {
    headers.map_values(|h: (String, Vec<u8>)| (h.0@, h.1@))
}

/// A text that may be absent, as a value.
pub open spec fn text_view(text: Option<String>) -> Option<Seq<char>> {
    match text {
        Some(t) => Some(t@),
        None => None,
    }
}

/// A request to hand on: where it goes, the headers of it that may go on, its body
/// and who makes it. `post_timeout` is the setting of [`POST_TIMEOUT_VARIABLE`].
pub struct RelayRequest {
    pub path: String,
    pub query: Option<String>,
    pub headers: Vec<(String, Vec<u8>)>,
    pub body: Option<Vec<u8>>,
    pub identite: Option<String>,
    pub post_timeout: Option<String>,
}

/// A request to hand on, as a value.
pub struct RelayModel {
    pub path: Seq<char>,
    pub query: Option<Seq<char>>,
    pub headers: Seq<(Seq<char>, Seq<u8>)>,
    pub body: Option<Seq<u8>>,
    pub identite: Option<Seq<char>>,
    pub post_timeout: Option<Seq<char>>,
}

impl View for RelayRequest {
    type V = RelayModel;

    open spec fn view(&self) -> RelayModel {
        RelayModel {
            path: self.path@,
            query: text_view(self.query),
            headers: headers_view(self.headers@),
            body: body_view(self.body),
            identite: text_view(self.identite),
            post_timeout: text_view(self.post_timeout),
        }
    }
}

/// A request to the upstream; [`HttpMethod::Other`] is the method that came in.
pub struct UpstreamRequest {
    pub method: HttpMethod,
    pub url: String,
    pub headers: Vec<(String, Vec<u8>)>,
    pub timeout_secs: Option<u64>,
    pub body: Option<Vec<u8>>,
}

/// A request to the upstream, as a value.
pub struct UpstreamModel {
    pub method: HttpMethod,
    pub url: Seq<char>,
    pub headers: Seq<(Seq<char>, Seq<u8>)>,
    pub timeout_secs: Option<u64>,
    pub body: Option<Seq<u8>>,
}

impl View for UpstreamRequest {
    type V = UpstreamModel;

    open spec fn view(&self) -> UpstreamModel {
        UpstreamModel {
            method: self.method,
            url: self.url@,
            headers: headers_view(self.headers@),
            timeout_secs: self.timeout_secs,
            body: body_view(self.body),
        }
    }
}

/// The head of a reply.
pub struct ReplyHead {
    pub status: u16,
    pub headers: Vec<(String, Vec<u8>)>,
}

/// The head of a reply, as a value.
pub struct HeadModel {
    pub status: u16,
    pub headers: Seq<(Seq<char>, Seq<u8>)>,
}

impl View for ReplyHead {
    type V = HeadModel;

    open spec fn view(&self) -> HeadModel {
        HeadModel { status: self.status, headers: headers_view(self.headers@) }
    }
}

/// What the caller has done.
pub enum ForwardEvent {
    /// The request is to be handed on.
    Admitted(RelayRequest),
    /// It was sent; `None` where the exchange failed, else the head of the reply with
    /// the headers of it that may go on.
    Sent(Option<ReplyHead>),
    /// The body of the reply was read; `None` where that failed.
    BodyRead { head: ReplyHead, read: Option<Vec<u8>> },
    /// The tools that the client may not see were taken out of the body.
    Filtered { head: ReplyHead, body: Vec<u8> },
}

/// What the caller has done, as a value.
pub enum ForwardEventModel {
    Admitted(RelayModel),
    Sent(Option<HeadModel>),
    BodyRead { head: HeadModel, read: Option<Seq<u8>> },
    Filtered { head: HeadModel, body: Seq<u8> },
}

impl View for ForwardEvent {
    type V = ForwardEventModel;

    open spec fn view(&self) -> ForwardEventModel {
        match *self {
            ForwardEvent::Admitted(request) => ForwardEventModel::Admitted(request@),
            ForwardEvent::Sent(Some(head)) => ForwardEventModel::Sent(Some(head@)),
            ForwardEvent::Sent(None) => ForwardEventModel::Sent(None),
            ForwardEvent::BodyRead { head, read } => ForwardEventModel::BodyRead {
                head: head@,
                read: body_view(read),
            },
            ForwardEvent::Filtered { head, body } => ForwardEventModel::Filtered {
                head: head@,
                body: body@,
            },
        }
    }
}

/// What the caller does next.
pub enum ForwardAction {
    /// Send this request to the upstream.
    Send(UpstreamRequest),
    /// Answer that the upstream failed.
    BadGateway { status: u16, detail: String },
    /// Answer with this head, and stream the body of the reply after it.
    Stream(ReplyHead),
    /// Read the body of the reply.
    ReadBody(ReplyHead),
    /// Take the tools that are not in `visible` out of `body`, if it lists tools.
    FilterTools { head: ReplyHead, body: Vec<u8>, content_type: String, visible: NameSet },
    /// Answer with this head and body.
    Respond { head: ReplyHead, body: Vec<u8> },
}

/// What the caller does next, as a value.
pub enum ForwardActionModel {
    Send(UpstreamModel),
    BadGateway { status: u16, detail: Seq<char> },
    Stream(HeadModel),
    ReadBody(HeadModel),
    FilterTools {
        head: HeadModel,
        body: Seq<u8>,
        content_type: Seq<char>,
        visible: Set<Seq<char>>,
    },
    Respond { head: HeadModel, body: Seq<u8> },
}

impl View for ForwardAction {
    type V = ForwardActionModel;

    open spec fn view(&self) -> ForwardActionModel {
        match *self {
            ForwardAction::Send(request) => ForwardActionModel::Send(request@),
            ForwardAction::BadGateway { status, detail } => ForwardActionModel::BadGateway {
                status,
                detail: detail@,
            },
            ForwardAction::Stream(head) => ForwardActionModel::Stream(head@),
            ForwardAction::ReadBody(head) => ForwardActionModel::ReadBody(head@),
            ForwardAction::FilterTools { head, body, content_type, visible } =>
                ForwardActionModel::FilterTools {
                head: head@,
                body: body@,
                content_type: content_type@,
                visible: visible@,
            },
            ForwardAction::Respond { head, body } => ForwardActionModel::Respond {
                head: head@,
                body: body@,
            },
        }
    }
}

/// The address of `path` and `query` at the upstream.
pub open spec fn upstream_url(
    upstream: Seq<char>,
    path: Seq<char>,
    query: Option<Seq<char>>,
) -> Seq<char> {
    match query {
        Some(q) => if q.len() > 0 {
            upstream + path + "?"@ + q
        } else {
            upstream + path
        },
        None => upstream + path,
    }
}

/// How the client `identity` was authenticated.
pub open spec fn mode_of(identity: Seq<char>, static_client_id: Seq<char>) -> Seq<char> {
    if identity == static_client_id {
        "cli"@
    } else {
        "oauth"@
    }
}

/// The headers that tell the upstream who makes a request.
pub open spec fn actor_headers(identite: Option<Seq<char>>, static_client_id: Seq<char>) -> Seq<
    (Seq<char>, Seq<u8>),
> {
    match identite {
        Some(id) => if id.len() > 0 {
            seq![
                (ACTOR_HEADER@, encode_utf8(id)),
                (MODE_HEADER@, encode_utf8(mode_of(id, static_client_id))),
            ]
        } else {
            Seq::empty()
        },
        None => Seq::empty(),
    }
}

/// Whether the identity of a request can be told in a header.
pub open spec fn can_name_actor(identite: Option<Seq<char>>) -> bool {
    identite matches Some(id) ==> is_header_value(encode_utf8(id))
}

/// The time limit of a request of method `method`, in seconds.
pub open spec fn time_limit(method: HttpMethod, setting: Option<Seq<char>>) -> Option<u64> {
    if method == HttpMethod::Post {
        match setting {
            Some(s) => match parsed_u64(s) {
                Some(secs) => Some(secs),
                None => Some(POST_TIMEOUT_SECS),
            },
            None => Some(POST_TIMEOUT_SECS),
        }
    } else {
        None
    }
}

/// The reply where the upstream failed.
pub open spec fn bad_gateway() -> ForwardActionModel {
    ForwardActionModel::BadGateway { status: 502, detail: "HttpError"@ }
}

/// The head of the reply that is made of one with the head `received`: the same, with
/// 502 for a number that is no status code.
pub open spec fn kept_head(received: HeadModel) -> HeadModel {
    HeadModel {
        status: if is_status(received.status) {
            received.status
        } else {
            502
        },
        headers: received.headers,
    }
}

/// The type of the content that `headers` announce: the text of the first such
/// header, nothing where there is none or it is no text.
pub open spec fn content_type_of(headers: Seq<(Seq<char>, Seq<u8>)>) -> Seq<char>
    decreases headers.len(),
{
    if headers.len() == 0 {
        Seq::empty()
    } else if headers[0].0 == "content-type"@ {
        match header_text(headers[0].1) {
            Some(text) => text,
            None => Seq::empty(),
        }
    } else {
        content_type_of(headers.drop_first())
    }
}

impl AppModel {
    /// The request to the upstream that hands `request` on.
    pub open spec fn relayed(self, method: HttpMethod, request: RelayModel) -> UpstreamModel {
        UpstreamModel {
            method,
            url: upstream_url(self.upstream, request.path, request.query),
            headers: request.headers + actor_headers(request.identite, self.static_client_id),
            timeout_secs: time_limit(method, request.post_timeout),
            body: request.body,
        }
    }

    /// What the caller does after `event`, for a request of method `method` under the
    /// scopes `scopes`.
    pub open spec fn next(
        self,
        scopes: Set<Seq<char>>,
        method: HttpMethod,
        event: ForwardEventModel,
    ) -> ForwardActionModel {
        match event {
            ForwardEventModel::Admitted(request) => if can_name_actor(request.identite) {
                ForwardActionModel::Send(self.relayed(method, request))
            } else {
                bad_gateway()
            },
            ForwardEventModel::Sent(None) => bad_gateway(),
            ForwardEventModel::Sent(Some(received)) => if method == HttpMethod::Get {
                ForwardActionModel::Stream(kept_head(received))
            } else {
                ForwardActionModel::ReadBody(kept_head(received))
            },
            ForwardEventModel::BodyRead { head, read } => match read {
                None => bad_gateway(),
                Some(bytes) => if method == HttpMethod::Post {
                    ForwardActionModel::FilterTools {
                        head,
                        body: bytes,
                        content_type: content_type_of(head.headers),
                        visible: self.policy.visible(scopes),
                    }
                } else {
                    ForwardActionModel::Respond { head, body: bytes }
                },
            },
            ForwardEventModel::Filtered { head, body } => ForwardActionModel::Respond {
                head,
                body,
            },
        }
    }
}

/// The address of `path` and `query` at the upstream.
pub fn url_at(upstream: &str, path: &str, query: Option<&str>) -> (r: String)
    ensures
        r@ == upstream_url(
            upstream@,
            path@,
            match query {
                Some(q) => Some(q@),
                None => None,
            },
        ),
        query is None || query->0@.len() == 0 ==> r@ == upstream@ + path@,
        query is Some && query->0@.len() > 0 ==> r@ == upstream@ + path@ + "?"@ + query->0@,
{
    let base = upstream.to_string().concat(path);
    match query {
        Some(q) => if !q.is_empty() {
            base.concat("?").concat(q)
        } else {
            base
        },
        None => base,
    }
}

/// The time limit of a request of method `method`, in seconds, under the setting
/// `setting` of [`POST_TIMEOUT_VARIABLE`].
pub fn time_limit_of(method: HttpMethod, setting: &Option<String>) -> (r: Option<u64>)
    ensures
        r == time_limit(method, text_view(*setting)),
        !(method is Post) ==> r is None,
        method is Post && (setting is None || parsed_u64(setting->0@) is None) ==> r == Some(
            3600u64,
        ),
        method is Post && setting is Some && parsed_u64(setting->0@) is Some ==> r == parsed_u64(
            setting->0@,
        ),
{
    match method {
        HttpMethod::Post => match setting {
            Some(s) => match parse_u64(s.as_str()) {
                Some(secs) => Some(secs),
                None => Some(POST_TIMEOUT_SECS),
            },
            None => Some(POST_TIMEOUT_SECS),
        },
        _ => None,
    }
}

fn bytes_of(s: &str) -> (r: Vec<u8>)
    ensures
        r@ == encode_utf8(s@),
{
    s.as_bytes_vec()
}

/// The type of the content that `headers` announce.
pub fn content_type(headers: &Vec<(String, Vec<u8>)>) -> (r: String)
    ensures
        r@ == content_type_of(headers_view(headers@)),
{
    let ghost all = headers_view(headers@);
    let mut i: usize = 0;
    assert(all.skip(0) =~= all);
    while i < headers.len()
        invariant
            all == headers_view(headers@),
            i <= headers.len(),
            content_type_of(all) == content_type_of(all.skip(i as int)),
        decreases headers.len() - i,
    {
        assert(all.skip(i as int)[0] == (headers@[i as int].0@, headers@[i as int].1@));
        assert(all.skip(i as int).drop_first() =~= all.skip(i + 1));
        if same_text(headers[i].0.as_str(), "content-type") {
            return match header_to_str(&headers[i].1) {
                Some(text) => text,
                None => String::new(),
            };
        }
        i = i + 1;
    }
    String::new()
}

impl AppState {
    fn relay(&self, method: HttpMethod, request: RelayRequest) -> (r: ForwardAction)
        ensures
            r@ == self@.next(
                Set::<Seq<char>>::empty(),
                method,
                ForwardEventModel::Admitted(request@),
            ),
            r matches ForwardAction::Send(sent) ==> sent.method == method && sent.body
                == request.body,
    {
        let ghost asked = request@;
        let timeout_secs = time_limit_of(method, &request.post_timeout);
        let url = url_at(
            self.upstream.as_str(),
            request.path.as_str(),
            match &request.query {
                Some(q) => Some(q.as_str()),
                None => None,
            },
        );
        let mut headers = request.headers;
        if let Some(id) = request.identite {
            let actor = bytes_of(id.as_str());
            if !header_value_accepts(&actor) {
                return ForwardAction::BadGateway { status: 502, detail: "HttpError".to_string() };
            }
            if !id.as_str().is_empty() {
                let mode = if same_text(id.as_str(), self.static_client_id.as_str()) {
                    "cli"
                } else {
                    "oauth"
                };
                headers.push((ACTOR_HEADER.to_string(), actor));
                headers.push((MODE_HEADER.to_string(), bytes_of(mode)));
            }
        }
        assert(headers_view(headers@) =~= asked.headers + actor_headers(
            asked.identite,
            self@.static_client_id,
        ));
        ForwardAction::Send(
            UpstreamRequest { method, url, headers, timeout_secs, body: request.body },
        )
    }
}

/// Hands a request on to the upstream and makes the reply of what comes back, one
/// step of the caller at a time.
pub fn forward(state: &AppState, scopes: &NameSet, method: HttpMethod, event: ForwardEvent) -> (r:
    ForwardAction)
    ensures
        r@ == state@.next(scopes@, method, event@),
        event matches ForwardEvent::Admitted(request) ==> (r matches ForwardAction::Send(sent)
            ==> sent.method == method && sent.body == request.body),
        event matches ForwardEvent::Sent(None) ==> (r matches ForwardAction::BadGateway {
            status,
            detail,
        } && status == 502 && detail@ == "HttpError"@),
        event matches ForwardEvent::Sent(Some(received)) ==> (method is Get ==> (
        r matches ForwardAction::Stream(head) && head.headers@ == received.headers@ && head.status
            == if 100 <= received.status <= 999 {
            received.status
        } else {
            502
        })),
        event matches ForwardEvent::Sent(Some(received)) ==> (!(method is Get) ==> (
        r matches ForwardAction::ReadBody(head) && head.headers@ == received.headers@ && head.status
            == if 100 <= received.status <= 999 {
            received.status
        } else {
            502
        })),
        event matches ForwardEvent::BodyRead { head: _, read: None } ==> (
        r matches ForwardAction::BadGateway { status, detail } && status == 502 && detail@
            == "HttpError"@),
        event matches ForwardEvent::BodyRead { head, read: Some(bytes) } ==> (method is Post ==> (
        r matches ForwardAction::FilterTools { head: kept, body, content_type, visible } && kept
            == head && body == bytes && content_type@ == content_type_of(
            headers_view(head.headers@),
        ) && forall|name: Seq<char>| #[trigger]
            visible@.contains(name) <==> state.policy@.allows(name, scopes@))),
        event matches ForwardEvent::BodyRead { head, read: Some(bytes) } ==> (!(method is Post)
            ==> (r matches ForwardAction::Respond { head: kept, body } && kept == head && body
            == bytes)),
        event matches ForwardEvent::Filtered { head, body: left } ==> (
        r matches ForwardAction::Respond { head: kept, body } && kept == head && body == left),
{
    match event {
        ForwardEvent::Admitted(request) => state.relay(method, request),
        ForwardEvent::Sent(None) => ForwardAction::BadGateway {
            status: 502,
            detail: "HttpError".to_string(),
        },
        ForwardEvent::Sent(Some(received)) => {
            let status: u16 = match status_from_u16(received.status) {
                Some(code) => code,
                None => 502,
            };
            let head = ReplyHead { status, headers: received.headers };
            match method {
                HttpMethod::Get => ForwardAction::Stream(head),
                _ => ForwardAction::ReadBody(head),
            }
        },
        ForwardEvent::BodyRead { head, read } => match read {
            None => ForwardAction::BadGateway { status: 502, detail: "HttpError".to_string() },
            Some(bytes) => match method {
                HttpMethod::Post => {
                    let content_type = content_type(&head.headers);
                    let visible = state.policy.visibles(scopes);
                    ForwardAction::FilterTools { head, body: bytes, content_type, visible }
                },
                _ => ForwardAction::Respond { head, body: bytes },
            },
        },
        ForwardEvent::Filtered { head, body } => ForwardAction::Respond { head, body },
    }
}

impl AppModel {
    /// How a request ends that is handed on, where the exchange gives `sent`, the body
    /// of the reply `body`, and `filter` takes tools out of a body, by its type and
    /// the tools to keep.
    pub open spec fn outcome(
        self,
        scopes: Set<Seq<char>>,
        method: HttpMethod,
        request: RelayModel,
        sent: Option<HeadModel>,
        body: Option<Seq<u8>>,
        filter: spec_fn(Seq<u8>, Seq<char>, Set<Seq<char>>) -> Seq<u8>,
    ) -> ForwardActionModel {
        match self.next(scopes, method, ForwardEventModel::Admitted(request)) {
            ForwardActionModel::Send(_) => match self.next(
                scopes,
                method,
                ForwardEventModel::Sent(sent),
            ) {
                ForwardActionModel::ReadBody(head) => match self.next(
                    scopes,
                    method,
                    ForwardEventModel::BodyRead { head, read: body },
                ) {
                    ForwardActionModel::FilterTools { head, body, content_type, visible } =>
                        self.next(
                        scopes,
                        method,
                        ForwardEventModel::Filtered {
                            head,
                            body: filter(body, content_type, visible),
                        },
                    ),
                    action => action,
                },
                action => action,
            },
            action => action,
        }
    }
}

/// How a request ends that is handed on. Where its actor cannot be told in a header,
/// the exchange fails, or the body of the reply cannot be read, it is answered 502.
/// Else the reply keeps the status and the headers that came: to a GET the body is
/// streamed, to a POST it goes out less the tools that the client may not see, and
/// else it goes out as it came.
pub proof fn law_forward_outcome(
    state: AppModel,
    scopes: Set<Seq<char>>,
    method: HttpMethod,
    request: RelayModel,
    sent: Option<HeadModel>,
    body: Option<Seq<u8>>,
    filter: spec_fn(Seq<u8>, Seq<char>, Set<Seq<char>>) -> Seq<u8>,
)
    ensures
        state.outcome(scopes, method, request, sent, body, filter) == if !can_name_actor(
            request.identite,
        ) || sent is None {
            bad_gateway()
        } else if method == HttpMethod::Get {
            ForwardActionModel::Stream(kept_head(sent->0))
        } else if body is None {
            bad_gateway()
        } else if method == HttpMethod::Post {
            ForwardActionModel::Respond {
                head: kept_head(sent->0),
                body: filter(
                    body->0,
                    content_type_of(sent->0.headers),
                    state.policy.visible(scopes),
                ),
            }
        } else {
            ForwardActionModel::Respond { head: kept_head(sent->0), body: body->0 }
        },
{
}

/// What is sent for an authenticated client ends with the two headers that say who
/// it is and how it was authenticated; the headers before them are those that were
/// handed on, and so are the method and the body.
pub proof fn law_actor_is_injected(state: AppModel, method: HttpMethod, request: RelayModel)
    requires
        request.identite is Some,
        request.identite->0.len() > 0,
    ensures
        ({
            let id = request.identite->0;
            let sent = state.relayed(method, request);
            let n = request.headers.len() as int;
            &&& sent.headers.len() == n + 2
            &&& sent.headers.take(n) == request.headers
            &&& sent.headers[n] == (ACTOR_HEADER@, encode_utf8(id))
            &&& sent.headers[n + 1] == (
                MODE_HEADER@,
                encode_utf8(if id == state.static_client_id { "cli"@ } else { "oauth"@ }),
            )
            &&& sent.method == method
            &&& sent.body == request.body
        }),
{
    let n = request.headers.len() as int;
    assert(state.relayed(method, request).headers.take(n) =~= request.headers);
}

/// The actor is told once, where none of the headers that are handed on tells one,
/// and so is the mode.
pub proof fn law_actor_is_told_once(
    state: AppModel,
    method: HttpMethod,
    request: RelayModel,
    i: int,
)
    requires
        request.identite is Some,
        request.identite->0.len() > 0,
        0 <= i < state.relayed(method, request).headers.len(),
    ensures
        (forall|k: int|
            0 <= k < request.headers.len() ==> (#[trigger] request.headers[k]).0 != ACTOR_HEADER@)
            ==> (state.relayed(method, request).headers[i].0 == ACTOR_HEADER@ <==> i
            == request.headers.len()),
        (forall|k: int|
            0 <= k < request.headers.len() ==> (#[trigger] request.headers[k]).0 != MODE_HEADER@)
            ==> (state.relayed(method, request).headers[i].0 == MODE_HEADER@ <==> i
            == request.headers.len() + 1),
{
    lemma_header_names_differ();
    let headers = state.relayed(method, request).headers;
    if i < request.headers.len() {
        assert(headers[i] == request.headers[i]);
    }
}

/// The relay adds no header but the two that tell the actor: any other goes out
/// exactly where it was handed on.
pub proof fn law_no_other_header_is_added(
    state: AppModel,
    method: HttpMethod,
    request: RelayModel,
    name: Seq<char>,
    value: Seq<u8>,
)
    requires
        name != ACTOR_HEADER@,
        name != MODE_HEADER@,
    ensures
        state.relayed(method, request).headers.contains((name, value))
            <==> request.headers.contains((name, value)),
{
    let headers = state.relayed(method, request).headers;
    let n = request.headers.len() as int;
    if request.headers.contains((name, value)) {
        let k = choose|k: int| 0 <= k < n && request.headers[k] == (name, value);
        assert(headers[k] == (name, value));
    }
    if headers.contains((name, value)) {
        let k = choose|k: int| 0 <= k < headers.len() && headers[k] == (name, value);
        assert(k < n);
        assert(request.headers[k] == (name, value));
    }
}

proof fn lemma_header_names_differ()
    ensures
        ACTOR_HEADER@ != MODE_HEADER@,
{
    reveal_strlit("x-astra-gw-acteur");
    reveal_strlit("x-astra-gw-mode");
    assert(ACTOR_HEADER@.len() != MODE_HEADER@.len());
}

/// Nothing is said of a client that was not authenticated.
pub proof fn law_no_actor_without_identity(state: AppModel, method: HttpMethod, request: RelayModel)
    requires
        request.identite is None || request.identite->0.len() == 0,
    ensures
        state.relayed(method, request).headers == request.headers,
{
    assert(state.relayed(method, request).headers =~= request.headers);
}

/// Only a POST has a time limit: the number of seconds that the setting writes, and
/// an hour where it writes none.
pub proof fn law_time_limit(method: HttpMethod, setting: Option<Seq<char>>)
    ensures
        method != HttpMethod::Post <==> time_limit(method, setting) is None,
        method == HttpMethod::Post && (setting is None || parsed_u64(setting->0) is None)
            ==> time_limit(method, setting) == Some(3600u64),
        method == HttpMethod::Post && setting is Some && parsed_u64(setting->0) is Some
            ==> time_limit(method, setting) == parsed_u64(setting->0),
{
}

/// The content type of a reply is the first header of that name, whatever follows it:
/// its bytes, one character each, where all of them are visible ASCII, spaces and
/// tabs, else nothing.
pub proof fn law_content_type_is_the_first(headers: Seq<(Seq<char>, Seq<u8>)>, k: int)
    requires
        0 <= k < headers.len(),
        headers[k].0 == "content-type"@,
        forall|i: int| 0 <= i < k ==> (#[trigger] headers[i]).0 != "content-type"@,
    ensures
        (forall|i: int|
            0 <= i < headers[k].1.len() ==> #[trigger] headers[k].1[i] == 9 || 32
                <= headers[k].1[i] < 127) ==> content_type_of(headers) == headers[k].1.map_values(
            |b: u8| b as char,
        ),
        (exists|i: int|
            0 <= i < headers[k].1.len() && #[trigger] headers[k].1[i] != 9 && !(32
                <= headers[k].1[i] < 127)) ==> content_type_of(headers).len() == 0,
    decreases headers.len(),
{
    if k > 0 {
        let rest = headers.drop_first();
        assert(headers[0].0 != "content-type"@);
        assert(rest[k - 1] == headers[k]);
        assert forall|i: int| 0 <= i < k - 1 implies (#[trigger] rest[i]).0 != "content-type"@ by {
            assert(rest[i] == headers[i + 1]);
        }
        law_content_type_is_the_first(rest, k - 1);
    }
}

/// Where no header announces a content type there is none.
pub proof fn law_no_content_type(headers: Seq<(Seq<char>, Seq<u8>)>)
    requires
        forall|i: int| 0 <= i < headers.len() ==> (#[trigger] headers[i]).0 != "content-type"@,
    ensures
        content_type_of(headers).len() == 0,
    decreases headers.len(),
{
    if headers.len() > 0 {
        let rest = headers.drop_first();
        assert(headers[0].0 != "content-type"@);
        assert forall|i: int| 0 <= i < rest.len() implies (#[trigger] rest[i]).0
            != "content-type"@ by {
            assert(rest[i] == headers[i + 1]);
        }
        law_no_content_type(rest);
    }
}

/// The status of the reply is the one that came, for every status from 100 to 999, and
/// 502 for any other number. So it is to a request of every method, and so the headers
/// stay as they came, whatever is done to the body.
pub proof fn law_reply_keeps_the_head(
    state: AppModel,
    scopes: Set<Seq<char>>,
    method: HttpMethod,
    request: RelayModel,
    sent: HeadModel,
    body: Seq<u8>,
    filter: spec_fn(Seq<u8>, Seq<char>, Set<Seq<char>>) -> Seq<u8>,
)
    requires
        request.identite matches Some(id) ==> forall|i: int|
            0 <= i < encode_utf8(id).len() ==> #[trigger] encode_utf8(id)[i] == 9 || (encode_utf8(
                id,
            )[i] >= 32 && encode_utf8(id)[i] != 127),
    ensures
        method is Get ==> (state.outcome(
            scopes,
            method,
            request,
            Some(sent),
            Some(body),
            filter,
        ) matches ForwardActionModel::Stream(head) && head.headers == sent.headers && (100
            <= sent.status <= 999 ==> head.status == sent.status) && (!(100 <= sent.status <= 999)
            ==> head.status == 502)),
        !(method is Get) ==> (state.outcome(
            scopes,
            method,
            request,
            Some(sent),
            Some(body),
            filter,
        ) matches ForwardActionModel::Respond { head, body: _ } && head.headers == sent.headers && (
        100 <= sent.status <= 999 ==> head.status == sent.status) && (!(100 <= sent.status <= 999)
            ==> head.status == 502)),
{
}

/// The body of the reply is the one that came, to a request of any method but POST;
/// to a POST it is the body that came, less the tools that the policy does not allow
/// under the scopes of the request, as the content type that came tells it to be read.
pub proof fn law_reply_keeps_the_body(
    state: AppModel,
    scopes: Set<Seq<char>>,
    method: HttpMethod,
    request: RelayModel,
    sent: HeadModel,
    body: Seq<u8>,
    visible: Set<Seq<char>>,
    filter: spec_fn(Seq<u8>, Seq<char>, Set<Seq<char>>) -> Seq<u8>,
)
    requires
        forall|name: Seq<char>| #[trigger]
            visible.contains(name) <==> state.policy.allows(name, scopes),
    ensures
        state.outcome(
            scopes,
            method,
            request,
            Some(sent),
            Some(body),
            filter,
        ) matches ForwardActionModel::Respond { head: _, body: left } ==> left == if method is Post {
            filter(body, content_type_of(sent.headers), visible)
        } else {
            body
        },
{
    assert(state.policy.visible(scopes) =~= visible);
}

/// Where the exchange fails, or the body of a reply to anything but a GET cannot be
/// read, the answer is 502; to a GET nothing is read before the answer goes out.
pub proof fn law_upstream_failure(
    state: AppModel,
    scopes: Set<Seq<char>>,
    method: HttpMethod,
    request: RelayModel,
    sent: Option<HeadModel>,
    body: Option<Seq<u8>>,
    filter: spec_fn(Seq<u8>, Seq<char>, Set<Seq<char>>) -> Seq<u8>,
)
    ensures
        sent is None || (body is None && !(method is Get)) ==> state.outcome(
            scopes,
            method,
            request,
            sent,
            body,
            filter,
        ) == (ForwardActionModel::BadGateway { status: 502, detail: "HttpError"@ }),
        method is Get ==> state.outcome(scopes, method, request, sent, body, filter)
            == state.outcome(scopes, method, request, sent, None, filter),
{
}

/// What is sent for a request, whatever the scopes; nothing is sent, and the answer is
/// 502, where a byte of the identity is a control character other than the tab.
pub proof fn law_sent_upstream(
    state: AppModel,
    scopes: Set<Seq<char>>,
    method: HttpMethod,
    request: RelayModel,
)
    ensures
        (request.identite is None || forall|i: int|
            0 <= i < encode_utf8(request.identite->0).len() ==> #[trigger] encode_utf8(
                request.identite->0,
            )[i] == 9 || (encode_utf8(request.identite->0)[i] >= 32 && encode_utf8(
                request.identite->0,
            )[i] != 127)) ==> state.next(scopes, method, ForwardEventModel::Admitted(request)) == (
        ForwardActionModel::Send(
            UpstreamModel {
                method,
                url: if request.query is Some && request.query->0.len() > 0 {
                    state.upstream + request.path + "?"@ + request.query->0
                } else {
                    state.upstream + request.path
                },
                headers: request.headers + if request.identite is Some && request.identite->0.len()
                    > 0 {
                    seq![
                        ("x-astra-gw-acteur"@, encode_utf8(request.identite->0)),
                        (
                            "x-astra-gw-mode"@,
                            encode_utf8(
                                if request.identite->0 == state.static_client_id {
                                    "cli"@
                                } else {
                                    "oauth"@
                                },
                            ),
                        ),
                    ]
                } else {
                    Seq::empty()
                },
                timeout_secs: if !(method is Post) {
                    None
                } else if request.post_timeout is Some && parsed_u64(
                    request.post_timeout->0,
                ) is Some {
                    parsed_u64(request.post_timeout->0)
                } else {
                    Some(3600u64)
                },
                body: request.body,
            },
        )),
        (request.identite is Some && exists|i: int|
            0 <= i < encode_utf8(request.identite->0).len() && #[trigger] encode_utf8(
                request.identite->0,
            )[i] != 9 && (encode_utf8(request.identite->0)[i] < 32 || encode_utf8(
                request.identite->0,
            )[i] == 127)) ==> state.next(scopes, method, ForwardEventModel::Admitted(request)) == (
        ForwardActionModel::BadGateway { status: 502, detail: "HttpError"@ }),
{
}

/// Headers are read one by one: each name and all the bytes of its value.
pub proof fn law_headers_are_read_as_they_stand(headers: Seq<(String, Vec<u8>)>, i: int)
    requires
        0 <= i < headers.len(),
    ensures
        headers_view(headers).len() == headers.len(),
        headers_view(headers)[i].0 == headers[i].0@,
        headers_view(headers)[i].1 == headers[i].1@,
{
}

/// A request and a head are read field by field, and so is what the relay goes by.
pub proof fn law_fields_are_read_as_they_stand(
    state: AppState,
    request: RelayRequest,
    sent: UpstreamRequest,
    head: ReplyHead,
)
    ensures
        state@.upstream == state.upstream@,
        state@.static_client_id == state.static_client_id@,
        state@.policy == state.policy@,
        request@.path == request.path@,
        request@.query is Some <==> request.query is Some,
        request.query is Some ==> request@.query->0 == request.query->0@,
        request@.headers == headers_view(request.headers@),
        request@.body is Some <==> request.body is Some,
        request.body is Some ==> request@.body->0 == request.body->0@,
        request@.identite is Some <==> request.identite is Some,
        request.identite is Some ==> request@.identite->0 == request.identite->0@,
        request@.post_timeout is Some <==> request.post_timeout is Some,
        request.post_timeout is Some ==> request@.post_timeout->0 == request.post_timeout->0@,
        sent@.method == sent.method,
        sent@.url == sent.url@,
        sent@.headers == headers_view(sent.headers@),
        sent@.timeout_secs == sent.timeout_secs,
        sent@.body is Some <==> sent.body is Some,
        sent.body is Some ==> sent@.body->0 == sent.body->0@,
        head@.status == head.status,
        head@.headers == headers_view(head.headers@),
        ForwardEvent::Admitted(request)@ == ForwardEventModel::Admitted(request@),
        ForwardAction::Send(sent)@ == ForwardActionModel::Send(sent@),
{
}

} // verus!
