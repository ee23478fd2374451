//! Admission to `/mcp`: what becomes of a request by the bearer token that it
//! carries. The caller takes the token from the request, compares it with the
//! static one and asks the session stores; the decisions stand here.

use vstd::prelude::*;

use crate::names::NameSet;
use crate::text::{cut, cut_at};

verus! {

/// How many characters of a client's identifier are kept.
pub const IDENTITY_LIMIT: usize = 128;

/// Who makes a request: the identifier of the client that the token was issued
/// to, cut down to its first 128 characters.
#[derive(Debug, Clone)]
pub struct ClientIdentity(pub String);

impl View for ClientIdentity {
    type V = Seq<char>;

    open spec fn view(&self) -> Seq<char> {
        self.0@
    }
}

impl ClientIdentity {
    /// The identity of the client `client_id`.
    pub fn of(client_id: &str) -> (r: ClientIdentity)
        ensures
            r@ == cut(client_id@, IDENTITY_LIMIT as nat),
            client_id@.len() <= 128 ==> r.0@ == client_id@,
            client_id@.len() > 128 ==> r.0@ == client_id@.take(128),
    {
        ClientIdentity(cut_at(client_id, IDENTITY_LIMIT))
    }
}

/// What a valid token grants: whose it is, and under which scopes.
pub struct Grant {
    pub client_id: String,
    pub scopes: NameSet,
}

/// A grant as a value.
pub struct GrantModel {
    pub client_id: Seq<char>,
    pub scopes: Set<Seq<char>>,
}

impl View for Grant {
    type V = GrantModel;

    open spec fn view(&self) -> GrantModel {
        GrantModel { client_id: self.client_id@, scopes: self.scopes@ }
    }
}

/// What was found of a token, as a value.
pub open spec fn found_view(found: Option<Grant>) -> Option<GrantModel> {
    match found {
        Some(grant) => Some(grant@),
        None => None,
    }
}

/// A reply in plain text.
pub struct PlainReply {
    pub status: u16,
    pub headers: Vec<(String, String)>,
    pub body: String,
}

/// A reply in plain text, as a value.
pub struct PlainReplyModel {
    pub status: u16,
    pub headers: Seq<(Seq<char>, Seq<char>)>,
    pub body: Seq<char>,
}

impl View for PlainReply {
    type V = PlainReplyModel;

    open spec fn view(&self) -> PlainReplyModel {
        PlainReplyModel {
            status: self.status,
            headers: self.headers@.map_values(|h: (String, String)| (h.0@, h.1@)),
            body: self.body@,
        }
    }
}

/// What admission goes by: the scopes that every token must carry, and where the
/// metadata of the protected resource is published.
pub struct AuthState {
    pub required_scopes: Vec<String>,
    pub prm_url: String,
}

/// What admission goes by, as a value.
pub struct AuthModel {
    pub required_scopes: Set<Seq<char>>,
    pub prm_url: Seq<char>,
}

impl View for AuthState {
    type V = AuthModel;

    open spec fn view(&self) -> AuthModel {
        AuthModel {
            required_scopes: self.required_scopes.deep_view().to_set(),
            prm_url: self.prm_url@,
        }
    }
}

/// What the caller has found out.
pub enum AuthEvent {
    /// The bearer token of the request, if it has one.
    Bearer(Option<String>),
    /// What the static token grants, if `token` is that one.
    StaticChecked { token: String, found: Option<Grant> },
    /// What the session stores know of the token.
    Resolved { found: Option<Grant> },
}

/// What the caller has found out, as a value.
pub enum AuthEventModel {
    Bearer(Option<Seq<char>>),
    StaticChecked { token: Seq<char>, found: Option<GrantModel> },
    Resolved { found: Option<GrantModel> },
}

impl View for AuthEvent {
    type V = AuthEventModel;

    open spec fn view(&self) -> AuthEventModel {
        match *self {
            AuthEvent::Bearer(Some(token)) => AuthEventModel::Bearer(Some(token@)),
            AuthEvent::Bearer(None) => AuthEventModel::Bearer(None),
            AuthEvent::StaticChecked { token, found } => AuthEventModel::StaticChecked {
                token: token@,
                found: found_view(found),
            },
            AuthEvent::Resolved { found } => AuthEventModel::Resolved { found: found_view(found) },
        }
    }
}

/// What the caller does next.
pub enum AuthAction {
    /// Compare `token` with the static one.
    CheckStatic { token: String },
    /// Ask the session stores for `token`.
    Resolve { token: String },
    /// Answer, and go no further.
    Refuse(PlainReply),
    /// Hand the request on, with these scopes and this identity.
    Admit { scopes: NameSet, identity: ClientIdentity },
}

/// What the caller does next, as a value.
pub enum AuthActionModel {
    CheckStatic { token: Seq<char> },
    Resolve { token: Seq<char> },
    Refuse(PlainReplyModel),
    Admit { scopes: Set<Seq<char>>, identity: Seq<char> },
}

impl View for AuthAction {
    type V = AuthActionModel;

    open spec fn view(&self) -> AuthActionModel {
        match *self {
            AuthAction::CheckStatic { token } => AuthActionModel::CheckStatic { token: token@ },
            AuthAction::Resolve { token } => AuthActionModel::Resolve { token: token@ },
            AuthAction::Refuse(reply) => AuthActionModel::Refuse(reply@),
            AuthAction::Admit { scopes, identity } => AuthActionModel::Admit {
                scopes: scopes@,
                identity: identity@,
            },
        }
    }
}

/// The reply to a request without a valid token: it says where the metadata of the
/// protected resource is.
pub open spec fn unauthorized_reply(prm_url: Seq<char>) -> PlainReplyModel {
    PlainReplyModel {
        status: 401,
        headers: seq![
            ("www-authenticate"@, "Bearer resource_metadata=\""@ + prm_url + "\""@),
        ],
        body: "Unauthorized"@,
    }
}

/// The reply to a request whose token lacks a scope.
pub open spec fn forbidden_reply() -> PlainReplyModel {
    PlainReplyModel { status: 403, headers: Seq::empty(), body: "Forbidden"@ }
}

impl AuthModel {
    /// What becomes of a request whose token grants `grant`.
    pub open spec fn admission(self, grant: GrantModel) -> AuthActionModel {
        if self.required_scopes.subset_of(grant.scopes) {
            AuthActionModel::Admit {
                scopes: grant.scopes,
                identity: cut(grant.client_id, IDENTITY_LIMIT as nat),
            }
        } else {
            AuthActionModel::Refuse(forbidden_reply())
        }
    }

    /// What the caller does after `event`.
    pub open spec fn next(self, event: AuthEventModel) -> AuthActionModel {
        match event {
            AuthEventModel::Bearer(Some(token)) => AuthActionModel::CheckStatic { token },
            AuthEventModel::Bearer(None) => AuthActionModel::Refuse(
                unauthorized_reply(self.prm_url),
            ),
            AuthEventModel::StaticChecked { token, found } => match found {
                Some(grant) => self.admission(grant),
                None => AuthActionModel::Resolve { token },
            },
            AuthEventModel::Resolved { found } => match found {
                Some(grant) => self.admission(grant),
                None => AuthActionModel::Refuse(unauthorized_reply(self.prm_url)),
            },
        }
    }

    /// How a request ends that carries the token `bearer`, where the static token
    /// grants it `fixed` and the session stores `resolved`.
    pub open spec fn outcome(
        self,
        bearer: Option<Seq<char>>,
        fixed: Option<GrantModel>,
        resolved: Option<GrantModel>,
    ) -> AuthActionModel {
        match self.next(AuthEventModel::Bearer(bearer)) {
            AuthActionModel::CheckStatic { token } => match self.next(
                AuthEventModel::StaticChecked { token, found: fixed },
            ) {
                AuthActionModel::Resolve { token: _ } => self.next(
                    AuthEventModel::Resolved { found: resolved },
                ),
                action => action,
            },
            action => action,
        }
    }
}

/// The reply to a request without a valid token.
pub fn unauthorized(prm_url: &str) -> (r: PlainReply)
    ensures
        r@ == unauthorized_reply(prm_url@),
        r.status == 401,
        r.headers@.len() == 1,
        r.headers@[0].0@ == "www-authenticate"@,
        r.headers@[0].1@ == "Bearer resource_metadata=\""@ + prm_url@ + "\""@,
        r.body@ == "Unauthorized"@,
{
    let challenge = "Bearer resource_metadata=\"".to_string().concat(prm_url).concat("\"");
    let mut headers: Vec<(String, String)> = Vec::new();
    headers.push(("www-authenticate".to_string(), challenge));
    let r = PlainReply { status: 401, headers, body: "Unauthorized".to_string() };
    assert(r@.headers =~= unauthorized_reply(prm_url@).headers);
    r
}

fn forbidden() -> (r: PlainReply)
    ensures
        r@ == forbidden_reply(),
        r.status == 403,
        r.headers@.len() == 0,
        r.body@ == "Forbidden"@,
{
    let r = PlainReply { status: 403, headers: Vec::new(), body: "Forbidden".to_string() };
    assert(r@.headers =~= forbidden_reply().headers);
    r
}

impl AuthState {
    fn weigh(&self, grant: Grant) -> (r: AuthAction)
        ensures
            r@ == self@.admission(grant@),
            (forall|i: int|
                0 <= i < self.required_scopes@.len() ==> grant.scopes@.contains(
                    #[trigger] self.required_scopes@[i]@,
                )) ==> (r matches AuthAction::Admit { scopes, identity } && scopes@ == grant.scopes@
                && identity.0@ == if grant.client_id@.len() <= 128 {
                grant.client_id@
            } else {
                grant.client_id@.take(128)
            }),
            (exists|i: int|
                0 <= i < self.required_scopes@.len() && !grant.scopes@.contains(
                    #[trigger] self.required_scopes@[i]@,
                )) ==> (r matches AuthAction::Refuse(reply) && reply.status == 403 && reply.headers@.len()
                == 0 && reply.body@ == "Forbidden"@),
    {
        let ghost required = self.required_scopes.deep_view();
        for i in 0..self.required_scopes.len()
            invariant
                required == self.required_scopes.deep_view(),
                forall|j: int| 0 <= j < i ==> grant.scopes@.contains(#[trigger] required[j]),
        {
            assert(required[i as int] == self.required_scopes@[i as int]@);
            if !grant.scopes.contains(self.required_scopes[i].as_str()) {
                proof {
                    assert(required.contains(required[i as int]));
                    assert(self@.required_scopes.contains(required[i as int]));
                    assert(!grant.scopes@.contains(self.required_scopes@[i as int]@));
                }
                return AuthAction::Refuse(forbidden());
            }
        }
        assert(self@.required_scopes.subset_of(grant@.scopes));
        assert forall|i: int| 0 <= i < self.required_scopes@.len() implies grant.scopes@.contains(
            #[trigger] self.required_scopes@[i]@,
        ) by {
            assert(required[i] == self.required_scopes@[i]@);
        }
        let identity = ClientIdentity::of(grant.client_id.as_str());
        AuthAction::Admit { scopes: grant.scopes, identity }
    }
}

/// Decides on a request to `/mcp`, one finding of the caller at a time: the bearer
/// token first, then what the static token grants it, then what the session stores
/// know of it.
pub fn acteur_middleware(state: &AuthState, event: AuthEvent) -> (r: AuthAction)
    ensures
        r@ == state@.next(event@),
        event matches AuthEvent::Bearer(Some(token)) ==> (r matches AuthAction::CheckStatic {
            token: asked,
        } && asked@ == token@),
        event matches AuthEvent::StaticChecked { token, found: None } ==> (
        r matches AuthAction::Resolve { token: asked } && asked@ == token@),
        (event matches AuthEvent::Bearer(None) || event matches AuthEvent::Resolved { found: None })
            ==> (r matches AuthAction::Refuse(reply) && reply.status == 401 && reply.headers@.len()
            == 1 && reply.headers@[0].0@ == "www-authenticate"@ && reply.headers@[0].1@
            == "Bearer resource_metadata=\""@ + state.prm_url@ + "\""@ && reply.body@
            == "Unauthorized"@),
        event matches AuthEvent::StaticChecked { token: _, found: Some(grant) } ==> (
            (forall|i: int|
                0 <= i < state.required_scopes@.len() ==> grant.scopes@.contains(
                    #[trigger] state.required_scopes@[i]@,
                )) ==> (r matches AuthAction::Admit { scopes, identity } && scopes@ == grant.scopes@
                && identity.0@ == if grant.client_id@.len() <= 128 {
                grant.client_id@
            } else {
                grant.client_id@.take(128)
            })),
        event matches AuthEvent::StaticChecked { token: _, found: Some(grant) } ==> (
            (exists|i: int|
                0 <= i < state.required_scopes@.len() && !grant.scopes@.contains(
                    #[trigger] state.required_scopes@[i]@,
                )) ==> (r matches AuthAction::Refuse(reply) && reply.status == 403 && reply.headers@.len()
                == 0 && reply.body@ == "Forbidden"@)),
        event matches AuthEvent::Resolved { found: Some(grant) } ==> (
            (forall|i: int|
                0 <= i < state.required_scopes@.len() ==> grant.scopes@.contains(
                    #[trigger] state.required_scopes@[i]@,
                )) ==> (r matches AuthAction::Admit { scopes, identity } && scopes@ == grant.scopes@
                && identity.0@ == if grant.client_id@.len() <= 128 {
                grant.client_id@
            } else {
                grant.client_id@.take(128)
            })),
        event matches AuthEvent::Resolved { found: Some(grant) } ==> (
            (exists|i: int|
                0 <= i < state.required_scopes@.len() && !grant.scopes@.contains(
                    #[trigger] state.required_scopes@[i]@,
                )) ==> (r matches AuthAction::Refuse(reply) && reply.status == 403 && reply.headers@.len()
                == 0 && reply.body@ == "Forbidden"@)),
{
    match event {
        AuthEvent::Bearer(Some(token)) => AuthAction::CheckStatic { token },
        AuthEvent::Bearer(None) => AuthAction::Refuse(unauthorized(state.prm_url.as_str())),
        AuthEvent::StaticChecked { token, found } => match found {
            Some(grant) => state.weigh(grant),
            None => AuthAction::Resolve { token },
        },
        AuthEvent::Resolved { found } => match found {
            Some(grant) => state.weigh(grant),
            None => AuthAction::Refuse(unauthorized(state.prm_url.as_str())),
        },
    }
}

/// How a request ends: without a token, or with one that neither the static token
/// nor the session stores know, it is answered 401; with a token that lacks a
/// required scope, 403; with any other it is admitted under the scopes and the
/// identity of that token. The static token counts before the session stores.
pub proof fn law_outcome(
    state: AuthModel,
    bearer: Option<Seq<char>>,
    fixed: Option<GrantModel>,
    resolved: Option<GrantModel>,
)
    ensures
        ({
            let grant = if fixed is Some {
                fixed
            } else {
                resolved
            };
            state.outcome(bearer, fixed, resolved) == if bearer is None || grant is None {
                AuthActionModel::Refuse(unauthorized_reply(state.prm_url))
            } else if !state.required_scopes.subset_of(grant->0.scopes) {
                AuthActionModel::Refuse(forbidden_reply())
            } else {
                AuthActionModel::Admit {
                    scopes: grant->0.scopes,
                    identity: cut(grant->0.client_id, IDENTITY_LIMIT as nat),
                }
            }
        }),
{
}

/// A request is admitted only with every required scope.
pub proof fn law_admitted_has_required_scopes(
    state: AuthModel,
    bearer: Option<Seq<char>>,
    fixed: Option<GrantModel>,
    resolved: Option<GrantModel>,
)
    ensures
        state.outcome(bearer, fixed, resolved) matches AuthActionModel::Admit { scopes, identity }
            ==> bearer is Some && state.required_scopes.subset_of(scopes),
{
}

/// The answer to a request without a token that counts, whatever the request: 401,
/// with one header, which gives the whole address of the metadata between quotes.
pub proof fn law_challenge(
    state: AuthModel,
    bearer: Option<Seq<char>>,
    fixed: Option<GrantModel>,
    resolved: Option<GrantModel>,
)
    requires
        bearer is None || (fixed is None && resolved is None),
    ensures
        state.outcome(bearer, fixed, resolved) matches AuthActionModel::Refuse(reply) && {
            &&& reply.status == 401
            &&& reply.headers.len() == 1
            &&& reply.headers[0] == (
                "www-authenticate"@,
                "Bearer resource_metadata=\""@ + state.prm_url + "\""@,
            )
            &&& reply.body == "Unauthorized"@
        },
{
}

/// The answer to a request whose token counts: 403 where one required scope is wanting;
/// else it is admitted under all its scopes, those that are not required included, and
/// under the first 128 characters of its client's identifier. What the session stores
/// know does not matter where the static token grants something.
pub proof fn law_known_token(
    state: AuthModel,
    bearer: Seq<char>,
    grant: GrantModel,
    other: Option<GrantModel>,
)
    ensures
        state.outcome(Some(bearer), Some(grant), other) == state.outcome(
            Some(bearer),
            None,
            Some(grant),
        ),
        (exists|scope: Seq<char>| #[trigger]
            state.required_scopes.contains(scope) && !grant.scopes.contains(scope)) ==> (
        state.outcome(Some(bearer), Some(grant), other) matches AuthActionModel::Refuse(reply)
            && reply.status == 403 && reply.headers.len() == 0 && reply.body == "Forbidden"@),
        (forall|scope: Seq<char>| #[trigger]
            state.required_scopes.contains(scope) ==> grant.scopes.contains(scope)) ==> (
        state.outcome(Some(bearer), Some(grant), other) matches AuthActionModel::Admit {
            scopes,
            identity,
        } && scopes == grant.scopes && identity == if grant.client_id.len() <= 128 {
            grant.client_id
        } else {
            grant.client_id.take(128)
        }),
{
    if forall|scope: Seq<char>| #[trigger]
        state.required_scopes.contains(scope) ==> grant.scopes.contains(scope) {
        assert(state.required_scopes.subset_of(grant.scopes));
    }
}

/// The token that is compared, and then looked up, is the one that the request carries.
pub proof fn law_token_is_asked_for_whole(state: AuthModel, token: Seq<char>)
    ensures
        state.next(AuthEventModel::Bearer(Some(token))) == (AuthActionModel::CheckStatic { token }),
        state.next(AuthEventModel::StaticChecked { token, found: None }) == (
        AuthActionModel::Resolve { token }),
{
}

} // verus!
