//! What becomes of a request that was admitted to `/mcp`: it is answered here, or
//! handed on to the upstream. The caller reads the body and reads the JSON-RPC
//! message in it; the decisions stand here, the policy before anything is sent.

use vstd::prelude::*;

use crate::names::NameSet;
use crate::policy::{PolicyModel, TablePolicy};

verus! {

/// A request method, as far as the gateway tells them apart.
#[derive(Clone, Copy, Debug, PartialEq, Eq, Structural)]
pub enum HttpMethod {
    Get,
    Post,
    Put,
    Patch,
    Delete,
    Other,
}

impl HttpMethod {
    /// Whether the body of such a request is read.
    pub open spec fn has_body(self) -> bool {
        self == HttpMethod::Post || self == HttpMethod::Put || self == HttpMethod::Patch
    }

    /// Whether the body of such a request is read.
    pub fn carries_body(self) -> (r: bool)
        ensures
            r == self.has_body(),
            r <==> (self is Post || self is Put || self is Patch),
    {
        match self {
            HttpMethod::Post | HttpMethod::Put | HttpMethod::Patch => true,
            _ => false,
        }
    }
}

/// What a JSON-RPC message asks for; `I` is the type of the identifiers of
/// messages.
pub enum CallDecision<I> {
    /// It cannot be read.
    ParseError,
    /// It is a batch.
    BatchRejected,
    /// It calls a tool without naming one.
    Nameless { id: Option<I> },
    /// It calls the tool `name`.
    Call { id: Option<I>, name: String },
    /// It calls no tool.
    Passthrough,
}

/// What a JSON-RPC message asks for, as a value.
pub enum CallModel<I> {
    ParseError,
    BatchRejected,
    Nameless { id: Option<I> },
    Call { id: Option<I>, name: Seq<char> },
    Passthrough,
}

impl<I> View for CallDecision<I> {
    type V = CallModel<I>;

    open spec fn view(&self) -> CallModel<I> {
        match *self {
            CallDecision::ParseError => CallModel::ParseError,
            CallDecision::BatchRejected => CallModel::BatchRejected,
            CallDecision::Nameless { id } => CallModel::Nameless { id },
            CallDecision::Call { id, name } => CallModel::Call { id, name: name@ },
            CallDecision::Passthrough => CallModel::Passthrough,
        }
    }
}

/// The kinds of JSON-RPC errors that the gateway answers with.
#[derive(Clone, Copy, Debug, PartialEq, Eq, Structural)]
pub enum RpcCode {
    /// The message cannot be read.
    Parse,
    /// The message is a batch.
    Batch,
    /// The message is refused; see [`APP_CODE`].
    App,
}

/// The number of a JSON-RPC error that refuses a message.
pub const APP_CODE: i64 = -32000;

/// What the caller has found out.
pub enum HandlerEvent<I> {
    /// The request has come in.
    Received,
    /// The body of the request; `None` where it is over the limit or cannot be read.
    BodyRead(Option<Vec<u8>>),
    /// What the message in `body` asks for.
    Decided { body: Vec<u8>, decision: CallDecision<I> },
}

/// What the caller has found out, as a value.
pub enum HandlerEventModel<I> {
    Received,
    BodyRead(Option<Seq<u8>>),
    Decided { body: Seq<u8>, decision: CallModel<I> },
}

/// The bytes of a body that may be absent.
pub open spec fn body_view(body: Option<Vec<u8>>) -> Option<Seq<u8>> {
    match body {
        Some(bytes) => Some(bytes@),
        None => None,
    }
}

impl<I> View for HandlerEvent<I> {
    type V = HandlerEventModel<I>;

    open spec fn view(&self) -> HandlerEventModel<I> {
        match *self {
            HandlerEvent::Received => HandlerEventModel::Received,
            HandlerEvent::BodyRead(body) => HandlerEventModel::BodyRead(body_view(body)),
            HandlerEvent::Decided { body, decision } => HandlerEventModel::Decided {
                body: body@,
                decision: decision@,
            },
        }
    }
}

/// What the caller does next.
pub enum HandlerAction<I> {
    /// Read the body of the request, up to the limit.
    ReadBody,
    /// Find out what the message in `body` asks for.
    Decide { body: Vec<u8> },
    /// Answer that the body is too large.
    PayloadTooLarge { status: u16 },
    /// Answer with a JSON-RPC error.
    RpcError { status: u16, id: Option<I>, code: RpcCode, message: String },
    /// Hand the request on to the upstream, with this body.
    Forward(Option<Vec<u8>>),
}

/// What the caller does next, as a value.
pub enum HandlerActionModel<I> {
    ReadBody,
    Decide { body: Seq<u8> },
    PayloadTooLarge { status: u16 },
    RpcError { status: u16, id: Option<I>, code: RpcCode, message: Seq<char> },
    Forward(Option<Seq<u8>>),
}

impl<I> View for HandlerAction<I> {
    type V = HandlerActionModel<I>;

    open spec fn view(&self) -> HandlerActionModel<I> {
        match *self {
            HandlerAction::ReadBody => HandlerActionModel::ReadBody,
            HandlerAction::Decide { body } => HandlerActionModel::Decide { body: body@ },
            HandlerAction::PayloadTooLarge { status } => HandlerActionModel::PayloadTooLarge {
                status,
            },
            HandlerAction::RpcError { status, id, code, message } => HandlerActionModel::RpcError {
                status,
                id,
                code,
                message: message@,
            },
            HandlerAction::Forward(body) => HandlerActionModel::Forward(body_view(body)),
        }
    }
}

/// A JSON-RPC error, which goes out as a reply of status 200.
pub open spec fn rpc_error<I>(id: Option<I>, code: RpcCode, message: Seq<char>) -> HandlerActionModel<
    I,
> {
    HandlerActionModel::RpcError { status: 200, id, code, message }
}

/// What becomes of the message `decision`, which came as `body`.
pub open spec fn judged<I>(
    policy: PolicyModel,
    scopes: Set<Seq<char>>,
    body: Seq<u8>,
    decision: CallModel<I>,
) -> HandlerActionModel<I> {
    match decision {
        CallModel::ParseError => rpc_error(
            None,
            RpcCode::Parse,
            "corps JSON-RPC illisible (fail-closed)"@,
        ),
        CallModel::BatchRejected => rpc_error(
            None,
            RpcCode::Batch,
            "requetes par lot non prises en charge"@,
        ),
        CallModel::Nameless { id } => rpc_error(
            id,
            RpcCode::App,
            "tools/call sans nom d'outil (fail-closed)"@,
        ),
        CallModel::Call { id, name } => if policy.allows(name, scopes) {
            HandlerActionModel::Forward(Some(body))
        } else {
            rpc_error(id, RpcCode::App, policy.refusal(name))
        },
        CallModel::Passthrough => HandlerActionModel::Forward(Some(body)),
    }
}

/// What the caller does after `event`, for a request of method `method` under the
/// scopes `scopes`.
pub open spec fn handler_next<I>(
    policy: PolicyModel,
    scopes: Set<Seq<char>>,
    method: HttpMethod,
    event: HandlerEventModel<I>,
) -> HandlerActionModel<I> {
    match event {
        HandlerEventModel::Received => if method.has_body() {
            HandlerActionModel::ReadBody
        } else {
            HandlerActionModel::Forward(None)
        },
        HandlerEventModel::BodyRead(None) => HandlerActionModel::PayloadTooLarge { status: 413 },
        HandlerEventModel::BodyRead(Some(body)) => if body.len() == 0 {
            HandlerActionModel::Forward(None)
        } else {
            HandlerActionModel::Decide { body }
        },
        HandlerEventModel::Decided { body, decision } => judged(policy, scopes, body, decision),
    }
}

/// How a request ends whose body is `body` (`None` where it cannot be had), with a
/// message that asks for `decision`.
pub open spec fn handler_outcome<I>(
    policy: PolicyModel,
    scopes: Set<Seq<char>>,
    method: HttpMethod,
    body: Option<Seq<u8>>,
    decision: CallModel<I>,
) -> HandlerActionModel<I> {
    match handler_next::<I>(policy, scopes, method, HandlerEventModel::Received) {
        HandlerActionModel::ReadBody => match handler_next::<I>(
            policy,
            scopes,
            method,
            HandlerEventModel::BodyRead(body),
        ) {
            HandlerActionModel::Decide { body } => handler_next(
                policy,
                scopes,
                method,
                HandlerEventModel::Decided { body, decision },
            ),
            action => action,
        },
        action => action,
    }
}

/// The scopes of a request: none where admission has left none with it.
pub fn request_scopes(found: Option<NameSet>) -> (r: NameSet)
    ensures
        r@ == match found {
            Some(scopes) => scopes@,
            None => Set::<Seq<char>>::empty(),
        },
{
    match found {
        Some(scopes) => scopes,
        None => NameSet::new(),
    }
}

/// Decides on an admitted request, one finding of the caller at a time.
pub fn mcp_handler<I>(
    policy: &TablePolicy,
    scopes: &NameSet,
    method: HttpMethod,
    event: HandlerEvent<I>,
) -> (r: HandlerAction<I>)
    ensures
        r@ == handler_next(policy@, scopes@, method, event@),
        event is Received && (method is Post || method is Put || method is Patch) ==> r is ReadBody,
        event is Received && !(method is Post || method is Put || method is Patch) ==> (
        r matches HandlerAction::Forward(sent) && sent is None),
        event matches HandlerEvent::BodyRead(None) ==> (r matches HandlerAction::PayloadTooLarge {
            status,
        } && status == 413),
        event matches HandlerEvent::BodyRead(Some(body)) ==> (if body@.len() == 0 {
            r matches HandlerAction::Forward(sent) && sent is None
        } else {
            r matches HandlerAction::Decide { body: kept } && kept@ == body@
        }),
        event matches HandlerEvent::Decided { body, decision } ==> (match decision {
            CallDecision::Passthrough => r matches HandlerAction::Forward(Some(sent)) && sent@
                == body@,
            CallDecision::Call { id, name } => if policy@.allows(name@, scopes@) {
                r matches HandlerAction::Forward(Some(sent)) && sent@ == body@
            } else {
                r matches HandlerAction::RpcError { status, id: told, code, message } && status
                    == 200 && told == id && code is App && message@ == policy@.refusal(name@)
            },
            CallDecision::Nameless { id } => r matches HandlerAction::RpcError {
                status,
                id: told,
                code,
                message,
            } && status == 200 && told == id && code is App && message@
                == "tools/call sans nom d'outil (fail-closed)"@,
            CallDecision::BatchRejected => r matches HandlerAction::RpcError {
                status,
                id: told,
                code,
                message,
            } && status == 200 && told is None && code is Batch && message@
                == "requetes par lot non prises en charge"@,
            CallDecision::ParseError => r matches HandlerAction::RpcError {
                status,
                id: told,
                code,
                message,
            } && status == 200 && told is None && code is Parse && message@
                == "corps JSON-RPC illisible (fail-closed)"@,
        }),
{
    match event {
        HandlerEvent::Received => if method.carries_body() {
            HandlerAction::ReadBody
        } else {
            HandlerAction::Forward(None)
        },
        HandlerEvent::BodyRead(None) => HandlerAction::PayloadTooLarge { status: 413 },
        HandlerEvent::BodyRead(Some(body)) => if body.len() == 0 {
            HandlerAction::Forward(None)
        } else {
            HandlerAction::Decide { body }
        },
        HandlerEvent::Decided { body, decision } => match decision {
            CallDecision::ParseError => HandlerAction::RpcError {
                status: 200,
                id: None,
                code: RpcCode::Parse,
                message: "corps JSON-RPC illisible (fail-closed)".to_string(),
            },
            CallDecision::BatchRejected => HandlerAction::RpcError {
                status: 200,
                id: None,
                code: RpcCode::Batch,
                message: "requetes par lot non prises en charge".to_string(),
            },
            CallDecision::Nameless { id } => HandlerAction::RpcError {
                status: 200,
                id,
                code: RpcCode::App,
                message: "tools/call sans nom d'outil (fail-closed)".to_string(),
            },
            CallDecision::Call { id, name } => match policy.autoriser_call(name.as_str(), scopes) {
                Some(reason) => HandlerAction::RpcError {
                    status: 200,
                    id,
                    code: RpcCode::App,
                    message: reason,
                },
                None => HandlerAction::Forward(Some(body)),
            },
            CallDecision::Passthrough => HandlerAction::Forward(Some(body)),
        },
    }
}

/// How a request ends. Without a body to read, or with an empty one, it is handed
/// on as it is; with a body that cannot be had it is answered 413; else its message
/// is judged.
pub proof fn law_handler_outcome<I>(
    policy: PolicyModel,
    scopes: Set<Seq<char>>,
    method: HttpMethod,
    body: Option<Seq<u8>>,
    decision: CallModel<I>,
)
    ensures
        handler_outcome(policy, scopes, method, body, decision) == if !method.has_body() {
            HandlerActionModel::Forward(None)
        } else if body is None {
            HandlerActionModel::PayloadTooLarge { status: 413 }
        } else if body->0.len() == 0 {
            HandlerActionModel::Forward(None)
        } else {
            judged(policy, scopes, body->0, decision)
        },
{
}

/// A call that the policy refuses never reaches the upstream: it is answered with
/// an error that carries the identifier of the message and the reason.
pub proof fn law_refused_call_is_answered_here<I>(
    policy: PolicyModel,
    scopes: Set<Seq<char>>,
    method: HttpMethod,
    body: Seq<u8>,
    id: Option<I>,
    name: Seq<char>,
)
    requires
        method.has_body(),
        body.len() > 0,
        !policy.allows(name, scopes),
    ensures
        handler_outcome(policy, scopes, method, Some(body), CallModel::Call { id, name })
            == rpc_error(id, RpcCode::App, policy.refusal(name)),
{
}

/// What reaches the upstream is what came in: the whole body, or none where the
/// request has none.
pub proof fn law_forwarded_verbatim<I>(
    policy: PolicyModel,
    scopes: Set<Seq<char>>,
    method: HttpMethod,
    body: Option<Seq<u8>>,
    decision: CallModel<I>,
)
    ensures
        handler_outcome(policy, scopes, method, body, decision) matches HandlerActionModel::Forward(
            sent,
        ) ==> if method.has_body() && body is Some && body->0.len() > 0 {
            sent == body
        } else {
            sent is None
        },
{
}

/// A message that calls no tool is handed on, whatever the scopes.
pub proof fn law_passthrough<I>(
    policy: PolicyModel,
    scopes: Set<Seq<char>>,
    method: HttpMethod,
    body: Seq<u8>,
)
    requires
        method.has_body(),
        body.len() > 0,
    ensures
        handler_outcome::<I>(policy, scopes, method, Some(body), CallModel::Passthrough)
            == (HandlerActionModel::<I>::Forward(Some(body))),
{
}

/// A message that cannot be read, a batch and a call without a name are never
/// handed on.
pub proof fn law_unjudgeable_is_refused<I>(
    policy: PolicyModel,
    scopes: Set<Seq<char>>,
    method: HttpMethod,
    body: Seq<u8>,
    decision: CallModel<I>,
)
    requires
        method.has_body(),
        body.len() > 0,
        decision is ParseError || decision is BatchRejected || decision is Nameless,
    ensures
        handler_outcome(policy, scopes, method, Some(body), decision) is RpcError,
{
}

/// What a request of each method comes to. The body of a POST, a PUT and a PATCH is
/// read: where it cannot be had the answer is 413. A request of another method, and
/// one with an empty body, goes on without a body.
pub proof fn law_body_is_read_or_absent<I>(
    policy: PolicyModel,
    scopes: Set<Seq<char>>,
    method: HttpMethod,
    body: Option<Seq<u8>>,
    decision: CallModel<I>,
)
    ensures
        method is Get || method is Delete || method is Other ==> handler_outcome(
            policy,
            scopes,
            method,
            body,
            decision,
        ) == (HandlerActionModel::<I>::Forward(None)),
        (method is Post || method is Put || method is Patch) && body is None ==> handler_outcome(
            policy,
            scopes,
            method,
            body,
            decision,
        ) == (HandlerActionModel::<I>::PayloadTooLarge { status: 413 }),
        body == Some(Seq::<u8>::empty()) ==> handler_outcome(policy, scopes, method, body, decision)
            == (HandlerActionModel::<I>::Forward(None)),
{
}

/// What a message comes to that a POST, a PUT or a PATCH carries. Handed on, it is
/// whole; refused, it is answered with status 200, under its own identifier where it
/// has been read.
pub proof fn law_message_is_judged<I>(
    policy: PolicyModel,
    scopes: Set<Seq<char>>,
    method: HttpMethod,
    body: Seq<u8>,
    decision: CallModel<I>,
)
    requires
        method is Post || method is Put || method is Patch,
        body.len() > 0,
    ensures
        handler_outcome(policy, scopes, method, Some(body), decision) == match decision {
            CallModel::ParseError => HandlerActionModel::RpcError {
                status: 200,
                id: None,
                code: RpcCode::Parse,
                message: "corps JSON-RPC illisible (fail-closed)"@,
            },
            CallModel::BatchRejected => HandlerActionModel::RpcError {
                status: 200,
                id: None,
                code: RpcCode::Batch,
                message: "requetes par lot non prises en charge"@,
            },
            CallModel::Nameless { id } => HandlerActionModel::RpcError {
                status: 200,
                id,
                code: RpcCode::App,
                message: "tools/call sans nom d'outil (fail-closed)"@,
            },
            CallModel::Call { id, name } => if policy.allows(name, scopes) {
                HandlerActionModel::Forward(Some(body))
            } else {
                HandlerActionModel::RpcError {
                    status: 200,
                    id,
                    code: RpcCode::App,
                    message: policy.refusal(name),
                }
            },
            CallModel::Passthrough => HandlerActionModel::Forward(Some(body)),
        },
{
}

/// A request with a body goes one way only: the body is read, what was read is looked
/// into as it came, and the answer is made of that.
pub proof fn law_steps<I>(
    policy: PolicyModel,
    scopes: Set<Seq<char>>,
    method: HttpMethod,
    body: Seq<u8>,
    decision: CallModel<I>,
)
    requires
        method is Post || method is Put || method is Patch,
        body.len() > 0,
    ensures
        handler_next::<I>(policy, scopes, method, HandlerEventModel::Received) is ReadBody,
        handler_next::<I>(policy, scopes, method, HandlerEventModel::BodyRead(Some(body))) == (
        HandlerActionModel::<I>::Decide { body }),
        handler_next(policy, scopes, method, HandlerEventModel::Decided { body, decision })
            == handler_outcome(policy, scopes, method, Some(body), decision),
{
}

} // verus!
