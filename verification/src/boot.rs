//! Start-up: the settings in the environment, and the static token. The caller
//! reads variables and files; the decisions stand here.

use vstd::prelude::*;

use crate::forward::{text_view, POST_TIMEOUT_VARIABLE};
use crate::service::{Service, ServiceModel};
use crate::text::{
    is_white_space, law_trimmed, law_trimmed_of_padded, same_text, trim, trimmed,
};

verus! {

/// The prefix of the names of the settings.
pub const PREFIX: &'static str = "OPUS_GW_RS_";

/// The prefix that the names of the settings had before.
pub const LEGACY_PREFIX: &'static str = "ASTRA_GW_RS_";

/// The settings that are still read under their former names as well.
pub const MIRRORED: [&'static str; 12] = [
    "ISSUER",
    "UPSTREAM",
    "PORT",
    "TOKEN",
    "TOKEN_FILE",
    "TOKEN_SCOPES",
    "CONSENT_HASH",
    "OAUTH_ETAT",
    "OAUTH_EXPECTED_RESOURCE",
    "JWT_SECRET",
    "JWT_ISSUER",
    "JWT_AUDIENCE",
];

/// The setting with the issuer of the tokens.
pub const ISSUER_VARIABLE: &'static str = "OPUS_GW_RS_ISSUER";

/// The setting with the address of the upstream.
pub const UPSTREAM_VARIABLE: &'static str = "OPUS_GW_RS_UPSTREAM";

/// The setting with the file of the sessions that the authorization server keeps.
pub const OAUTH_ETAT_VARIABLE: &'static str = "OPUS_GW_RS_OAUTH_ETAT";

/// The setting with the scopes of the static token.
pub const TOKEN_SCOPES_VARIABLE: &'static str = "OPUS_GW_RS_TOKEN_SCOPES";

/// The setting with the static token.
pub const TOKEN_VARIABLE: &'static str = "OPUS_GW_RS_TOKEN";

/// The setting with the file that holds the static token.
pub const TOKEN_FILE_VARIABLE: &'static str = "OPUS_GW_RS_TOKEN_FILE";

/// Where the upstream is, unless it is set.
pub const UPSTREAM_DEFAULT: &'static str = "http://127.0.0.1:8794";

/// Where the sessions are, unless it is set.
pub const OAUTH_ETAT_DEFAULT: &'static str = "/srv/astra/gateway-oauth/etat.json";

/// The port to listen on, unless it is set.
pub const PORT_DEFAULT: u16 = 18996;

/// The file that is read where the default one cannot be.
pub const TOKEN_FILE_FALLBACK: &'static str = "/opt/astra-gateway-rs/.mcp_token";

/// How many characters a static token has at least.
pub const TOKEN_MIN_CHARS: usize = 32;

/// Names and values in order; of two values for one name the later one counts.
pub open spec fn bindings(entries: Seq<(Seq<char>, Seq<char>)>) -> Map<Seq<char>, Seq<char>>
    decreases entries.len(),
{
    if entries.len() == 0 {
        Map::empty()
    } else {
        bindings(entries.drop_last()).insert(entries.last().0, entries.last().1)
    }
}

/// Names and values, each taken as its characters.
pub open spec fn pairs_view(entries: Seq<(String, String)>) -> Seq<(Seq<char>, Seq<char>)> {
    entries.map_values(|e: (String, String)| (e.0@, e.1@))
}

proof fn lemma_bindings(entries: Seq<(Seq<char>, Seq<char>)>)
    ensures
        forall|name: Seq<char>| #[trigger]
            bindings(entries).contains_key(name) <==> exists|i: int|
                0 <= i < entries.len() && (#[trigger] entries[i]).0 == name,
        forall|i: int|
            0 <= i < entries.len() && (forall|j: int|
                i < j < entries.len() ==> (#[trigger] entries[j]).0 != entries[i].0)
                ==> bindings(entries)[(#[trigger] entries[i]).0] == entries[i].1,
    decreases entries.len(),
{
    if entries.len() > 0 {
        let rest = entries.drop_last();
        let last = entries.len() - 1;
        lemma_bindings(rest);
        assert forall|name: Seq<char>| #[trigger]
            bindings(entries).contains_key(name) <==> exists|i: int|
                0 <= i < entries.len() && (#[trigger] entries[i]).0 == name by {
            if bindings(rest).contains_key(name) {
                let i = choose|i: int| 0 <= i < rest.len() && (#[trigger] rest[i]).0 == name;
                assert(entries[i].0 == name);
            }
            if name == entries.last().0 {
                assert(entries[last].0 == name);
            }
            if exists|i: int| 0 <= i < entries.len() && (#[trigger] entries[i]).0 == name {
                let i = choose|i: int| 0 <= i < entries.len() && (#[trigger] entries[i]).0 == name;
                if i < last {
                    assert(rest[i].0 == name);
                }
            }
        }
        assert forall|i: int|
            0 <= i < entries.len() && (forall|j: int|
                i < j < entries.len() ==> (#[trigger] entries[j]).0
                    != entries[i].0) implies bindings(entries)[(#[trigger] entries[i]).0]
            == entries[i].1 by {
            if i < last {
                assert(entries[last].0 != entries[i].0);
                assert(rest[i] == entries[i]);
                assert forall|j: int| i < j < rest.len() implies (#[trigger] rest[j]).0
                    != rest[i].0 by {
                    assert(rest[j] == entries[j]);
                }
            }
        }
    }
}

proof fn lemma_listed(list: Seq<(String, String)>)
    ensures
        forall|name: Seq<char>| #[trigger]
            bindings(pairs_view(list)).contains_key(name) <==> exists|i: int|
                0 <= i < list.len() && (#[trigger] list[i]).0@ == name,
        forall|i: int|
            0 <= i < list.len() && (forall|j: int|
                i < j < list.len() ==> (#[trigger] list[j]).0@ != list[i].0@)
                ==> bindings(pairs_view(list))[(#[trigger] list[i]).0@] == list[i].1@,
{
    let all = pairs_view(list);
    lemma_bindings(all);
    assert forall|name: Seq<char>| #[trigger]
        bindings(all).contains_key(name) <==> exists|i: int|
            0 <= i < list.len() && (#[trigger] list[i]).0@ == name by {
        if bindings(all).contains_key(name) {
            let i = choose|i: int| 0 <= i < all.len() && (#[trigger] all[i]).0 == name;
            assert(list[i].0@ == name);
        }
        if exists|i: int| 0 <= i < list.len() && (#[trigger] list[i]).0@ == name {
            let i = choose|i: int| 0 <= i < list.len() && (#[trigger] list[i]).0@ == name;
            assert(all[i].0 == name);
        }
    }
    assert forall|i: int|
        0 <= i < list.len() && (forall|j: int|
            i < j < list.len() ==> (#[trigger] list[j]).0@ != list[i].0@) implies bindings(all)[(
    #[trigger] list[i]).0@] == list[i].1@ by {
        assert(all[i] == (list[i].0@, list[i].1@));
        assert forall|j: int| i < j < all.len() implies (#[trigger] all[j]).0 != all[i].0 by {
            assert(all[j].0 == list[j].0@);
        }
    }
}

/// The variables of a process.
pub struct Environment {
    entries: Vec<(String, String)>,
}

impl View for Environment {
    type V = Map<Seq<char>, Seq<char>>;

    closed spec fn view(&self) -> Map<Seq<char>, Seq<char>> {
        bindings(pairs_view(self.entries@))
    }
}

impl Environment {
    /// No variables.
    pub fn new() -> (r: Environment)
        ensures
            r@ == Map::<Seq<char>, Seq<char>>::empty(),
    {
        Environment { entries: Vec::new() }
    }

    /// Sets `name` to `value`.
    pub fn set(&mut self, name: &str, value: &str)
        ensures
            final(self)@ == old(self)@.insert(name@, value@),
    {
        let ghost before = pairs_view(self.entries@);
        self.entries.push((name.to_string(), value.to_string()));
        proof {
            let after = pairs_view(self.entries@);
            assert(after =~= before.push((name@, value@)));
            assert(after.drop_last() =~= before);
        }
    }

    /// The value of `name`, if it is set.
    pub fn get(&self, name: &str) -> (r: Option<String>)
        ensures
            text_view(r) == if self@.contains_key(name@) {
                Some(self@[name@])
            } else {
                None
            },
            r is Some <==> self@.contains_key(name@),
            r is Some ==> r->0@ == self@[name@],
    {
        let ghost all = pairs_view(self.entries@);
        let mut n: usize = self.entries.len();
        assert(all.take(n as int) =~= all);
        while n > 0
            invariant
                all == pairs_view(self.entries@),
                self@ == bindings(all),
                n <= self.entries.len(),
                self@.contains_key(name@) <==> bindings(all.take(n as int)).contains_key(name@),
                self@.contains_key(name@) ==> self@[name@] == bindings(all.take(n as int))[name@],
            decreases n,
        {
            let entry = &self.entries[n - 1];
            assert(all[n - 1] == (entry.0@, entry.1@));
            assert(all.take(n as int).drop_last() =~= all.take(n - 1));
            assert(all.take(n as int).last() == all[n - 1]);
            if same_text(entry.0.as_str(), name) {
                return Some(entry.1.clone());
            }
            n = n - 1;
        }
        None
    }

    /// Whether `name` is unset, or set to nothing but white space.
    pub fn is_blank(&self, name: &str) -> (r: bool)
        ensures
            r == blank(self@, name@),
            r <==> !self@.contains_key(name@) || forall|i: int|
                0 <= i < self@[name@].len() ==> is_white_space(#[trigger] self@[name@][i]),
    {
        proof {
            law_trimmed(self@[name@]);
        }
        match self.get(name) {
            Some(value) => trim(value.as_str()).as_str().is_empty(),
            None => true,
        }
    }

    /// The variables, in the order in which they were set.
    pub fn to_list(&self) -> (r: Vec<(String, String)>)
        ensures
            bindings(pairs_view(r@)) == self@,
            forall|name: Seq<char>| #[trigger]
                self@.contains_key(name) <==> exists|i: int|
                    0 <= i < r@.len() && (#[trigger] r@[i]).0@ == name,
            forall|i: int|
                0 <= i < r@.len() && (forall|j: int|
                    i < j < r@.len() ==> (#[trigger] r@[j]).0@ != r@[i].0@)
                    ==> self@[(#[trigger] r@[i]).0@] == r@[i].1@,
    {
        let ghost all = pairs_view(self.entries@);
        let mut r: Vec<(String, String)> = Vec::new();
        for i in 0..self.entries.len()
            invariant
                all == pairs_view(self.entries@),
                pairs_view(r@) == all.take(i as int),
        {
            let ghost before = pairs_view(r@);
            r.push((self.entries[i].0.clone(), self.entries[i].1.clone()));
            assert(pairs_view(r@) =~= before.push(all[i as int]));
            assert(pairs_view(r@) =~= all.take(i + 1));
        }
        assert(all.take(all.len() as int) =~= all);
        proof {
            lemma_listed(r@);
        }
        r
    }
}

/// Whether `name` is unset, or set to nothing but white space.
pub open spec fn blank(env: Map<Seq<char>, Seq<char>>, name: Seq<char>) -> bool {
    !env.contains_key(name) || trimmed(env[name]).len() == 0
}

/// Whether `name` is one of the first `n` settings that are still read under their
/// former names.
pub open spec fn is_mirrored_before(name: Seq<char>, n: int) -> bool {
    exists|i: int| 0 <= i < n && name == PREFIX@ + #[trigger] MIRRORED@[i]@
}

/// The former name of the setting `name`.
pub open spec fn legacy_name(name: Seq<char>) -> Seq<char> {
    LEGACY_PREFIX@ + name.skip(PREFIX@.len() as int)
}

/// `env`, where each of the first `n` mirrored settings that is blank takes the
/// value that it has under its former name, if that is not blank.
pub open spec fn mirrored_before(env: Map<Seq<char>, Seq<char>>, n: int) -> Map<
    Seq<char>,
    Seq<char>,
> {
    let takes = |name: Seq<char>|
        is_mirrored_before(name, n) && blank(env, name) && !blank(env, legacy_name(name));
    Map::new(
        |name: Seq<char>| env.contains_key(name) || takes(name),
        |name: Seq<char>|
            if takes(name) {
                env[legacy_name(name)]
            } else {
                env[name]
            },
    )
}

/// `env`, where each mirrored setting that is blank takes the value that it has
/// under its former name, if that is not blank.
pub open spec fn mirrored(env: Map<Seq<char>, Seq<char>>) -> Map<Seq<char>, Seq<char>> {
    mirrored_before(env, MIRRORED@.len() as int)
}

proof fn lemma_legacy_name(suffix: Seq<char>)
    ensures
        legacy_name(PREFIX@ + suffix) == LEGACY_PREFIX@ + suffix,
        forall|n: int| !is_mirrored_before(LEGACY_PREFIX@ + suffix, n),
{
    reveal_strlit("OPUS_GW_RS_");
    reveal_strlit("ASTRA_GW_RS_");
    assert((PREFIX@ + suffix).skip(PREFIX@.len() as int) =~= suffix);
    let former = LEGACY_PREFIX@ + suffix;
    assert(former[0] == 'A');
    assert forall|n: int| !is_mirrored_before(former, n) by {
        if is_mirrored_before(former, n) {
            let i = choose|i: int| 0 <= i < n && former == PREFIX@ + #[trigger] MIRRORED@[i]@;
            assert((PREFIX@ + MIRRORED@[i]@)[0] == 'O');
        }
    }
}

/// Gives each mirrored setting that is blank the value that it has under its former
/// name. The new name counts before the former one.
pub fn mirror_legacy_env(env: &mut Environment)
    ensures
        final(env)@ == mirrored(old(env)@),
{
    let ghost start = env@;
    assert(env@ =~= mirrored_before(start, 0));
    for i in 0..MIRRORED.len()
        invariant
            env@ == mirrored_before(start, i as int),
    {
        let new_name = PREFIX.to_string().concat(MIRRORED[i]);
        let former = LEGACY_PREFIX.to_string().concat(MIRRORED[i]);
        let ghost before = env@;
        proof {
            lemma_legacy_name(MIRRORED@[i as int]@);
            assert(before.contains_key(former@) == start.contains_key(former@));
            assert(before.contains_key(former@) ==> before[former@] == start[former@]);
        }
        if env.is_blank(new_name.as_str()) {
            if let Some(value) = env.get(former.as_str()) {
                if !trim(value.as_str()).as_str().is_empty() {
                    env.set(new_name.as_str(), value.as_str());
                }
            }
        }
        proof {
            assert forall|name: Seq<char>| #[trigger]
                is_mirrored_before(name, i + 1) == (is_mirrored_before(name, i as int) || name
                    == new_name@) by {
                if is_mirrored_before(name, i as int) {
                    let k = choose|k: int|
                        0 <= k < i as int && name == PREFIX@ + #[trigger] MIRRORED@[k]@;
                    assert(name == PREFIX@ + MIRRORED@[k]@);
                }
                if name == new_name@ {
                    assert(name == PREFIX@ + MIRRORED@[i as int]@);
                }
            }
            assert(env@ =~= mirrored_before(start, i + 1));
        }
    }
}

/// `env`, with `value` for `name` where that is blank.
pub open spec fn with_default(
    env: Map<Seq<char>, Seq<char>>,
    name: Seq<char>,
    value: Seq<char>,
) -> Map<Seq<char>, Seq<char>> {
    if blank(env, name) {
        env.insert(name, value)
    } else {
        env
    }
}

/// `env`, with `value` for `name` where that is unset.
pub open spec fn with_initial(
    env: Map<Seq<char>, Seq<char>>,
    name: Seq<char>,
    value: Seq<char>,
) -> Map<Seq<char>, Seq<char>> {
    if env.contains_key(name) {
        env
    } else {
        env.insert(name, value)
    }
}

/// The scopes of the static token, unless they are set.
pub open spec fn token_scopes_default(service: ServiceModel) -> Seq<char> {
    service.read_scope() + " "@ + service.write_scope()
}

/// The settings that the service starts with, out of those in `env`: what stands
/// under a former name is taken over, and what is still missing gets its default.
/// A session file that is set to nothing stays so, which leaves it out.
pub open spec fn prepared(service: ServiceModel, env: Map<Seq<char>, Seq<char>>) -> Map<
    Seq<char>,
    Seq<char>,
> {
    with_default(
        with_initial(
            with_default(
                with_default(mirrored(env), ISSUER_VARIABLE@, service.issuer_default()),
                UPSTREAM_VARIABLE@,
                UPSTREAM_DEFAULT@,
            ),
            OAUTH_ETAT_VARIABLE@,
            OAUTH_ETAT_DEFAULT@,
        ),
        TOKEN_SCOPES_VARIABLE@,
        token_scopes_default(service),
    )
}

fn set_default(env: &mut Environment, name: &str, value: &str)
    ensures
        final(env)@ == with_default(old(env)@, name@, value@),
{
    if env.is_blank(name) {
        env.set(name, value);
    }
}

/// Makes `env` the settings that the service starts with.
pub fn prepare_environment(service: &Service, env: &mut Environment)
    ensures
        final(env)@ == prepared(service@, old(env)@),
{
    mirror_legacy_env(env);
    set_default(env, ISSUER_VARIABLE, service.issuer_default().as_str());
    set_default(env, UPSTREAM_VARIABLE, UPSTREAM_DEFAULT);
    if env.get(OAUTH_ETAT_VARIABLE).is_none() {
        env.set(OAUTH_ETAT_VARIABLE, OAUTH_ETAT_DEFAULT);
    }
    let scopes = service.read_scope().concat(" ").concat(service.write_scope().as_str());
    set_default(env, TOKEN_SCOPES_VARIABLE, scopes.as_str());
}

/// What the caller has read.
pub enum TokenEvent {
    /// The settings [`TOKEN_VARIABLE`] and [`TOKEN_FILE_VARIABLE`].
    Settings { token: Option<String>, token_file: Option<String> },
    /// The file at `path`: its text, or why it cannot be read.
    FileRead { path: String, content: Result<String, String> },
    /// The file [`TOKEN_FILE_FALLBACK`], after the one at `path` could not be read
    /// because of `error`: its text, if it can be read.
    FallbackRead { path: String, error: String, fallback: Option<String> },
}

/// What the caller has read, as a value.
pub enum TokenEventModel {
    Settings { token: Option<Seq<char>>, token_file: Option<Seq<char>> },
    FileRead { path: Seq<char>, content: Result<Seq<char>, Seq<char>> },
    FallbackRead { path: Seq<char>, error: Seq<char>, fallback: Option<Seq<char>> },
}

/// The text of a file, or why it cannot be read, as a value.
pub open spec fn content_view(content: Result<String, String>) -> Result<Seq<char>, Seq<char>> {
    match content {
        Ok(text) => Ok(text@),
        Err(error) => Err(error@),
    }
}

impl View for TokenEvent {
    type V = TokenEventModel;

    open spec fn view(&self) -> TokenEventModel {
        match *self {
            TokenEvent::Settings { token, token_file } => TokenEventModel::Settings {
                token: text_view(token),
                token_file: text_view(token_file),
            },
            TokenEvent::FileRead { path, content } => TokenEventModel::FileRead {
                path: path@,
                content: content_view(content),
            },
            TokenEvent::FallbackRead { path, error, fallback } => TokenEventModel::FallbackRead {
                path: path@,
                error: error@,
                fallback: text_view(fallback),
            },
        }
    }
}

/// What the caller does next.
pub enum TokenAction {
    /// Start with this token.
    Ready(String),
    /// Refuse to start, for this reason.
    Fail(String),
    /// Read the file at `path`.
    ReadFile { path: String },
    /// Read the file [`TOKEN_FILE_FALLBACK`]: the one at `path` could not be read
    /// because of `error`.
    ReadFallback { path: String, error: String },
}

/// What the caller does next, as a value.
pub enum TokenActionModel {
    Ready(Seq<char>),
    Fail(Seq<char>),
    ReadFile { path: Seq<char> },
    ReadFallback { path: Seq<char>, error: Seq<char> },
}

impl View for TokenAction {
    type V = TokenActionModel;

    open spec fn view(&self) -> TokenActionModel {
        match *self {
            TokenAction::Ready(token) => TokenActionModel::Ready(token@),
            TokenAction::Fail(reason) => TokenActionModel::Fail(reason@),
            TokenAction::ReadFile { path } => TokenActionModel::ReadFile { path: path@ },
            TokenAction::ReadFallback { path, error } => TokenActionModel::ReadFallback {
                path: path@,
                error: error@,
            },
        }
    }
}

/// What becomes of a token file with the text `raw`.
pub open spec fn token_of_file(raw: Seq<char>) -> TokenActionModel {
    if trimmed(raw).len() < TOKEN_MIN_CHARS {
        TokenActionModel::Fail("token Bearer trop court (<32 car.), refuse de demarrer"@)
    } else {
        TokenActionModel::Ready(trimmed(raw))
    }
}

/// The file that holds the static token, under the setting `token_file`.
pub open spec fn token_path(service: ServiceModel, token_file: Option<Seq<char>>) -> Seq<char> {
    match token_file {
        Some(path) => if trimmed(path).len() > 0 {
            path
        } else {
            service.token_file_default()
        },
        None => service.token_file_default(),
    }
}

/// What the caller does after `event`.
pub open spec fn token_next(service: ServiceModel, event: TokenEventModel) -> TokenActionModel {
    match event {
        TokenEventModel::Settings { token, token_file } => {
            let given = match token {
                Some(value) => trimmed(value),
                None => Seq::empty(),
            };
            if given.len() == 0 {
                TokenActionModel::ReadFile { path: token_path(service, token_file) }
            } else if given.len() < TOKEN_MIN_CHARS {
                TokenActionModel::Fail("OPUS_GW_RS_TOKEN trop court (<32 car.)"@)
            } else {
                TokenActionModel::Ready(given)
            }
        },
        TokenEventModel::FileRead { path, content } => match content {
            Ok(raw) => token_of_file(raw),
            Err(error) => if path == service.token_file_default() {
                TokenActionModel::ReadFallback { path, error }
            } else {
                TokenActionModel::Fail("token Bearer illisible ("@ + path + ") : "@ + error)
            },
        },
        TokenEventModel::FallbackRead { path, error, fallback } => match fallback {
            Some(raw) => token_of_file(raw),
            None => TokenActionModel::Fail(
                "token Bearer illisible ("@ + path + " puis "@ + TOKEN_FILE_FALLBACK@ + ") : "@
                    + error,
            ),
        },
    }
}

fn file_token(raw: &str) -> (r: TokenAction)
    ensures
        r@ == token_of_file(raw@),
{
    let token = trim(raw);
    if token.as_str().unicode_len() < TOKEN_MIN_CHARS {
        TokenAction::Fail("token Bearer trop court (<32 car.), refuse de demarrer".to_string())
    } else {
        TokenAction::Ready(token)
    }
}

/// Finds the static token, one reading of the caller at a time: the variable first,
/// then the file. Without a token that is long enough the service does not start.
pub fn load_static_token(service: &Service, event: TokenEvent) -> (r: TokenAction)
    ensures
        r@ == token_next(service@, event@),
        event matches TokenEvent::Settings { token, token_file } ==> (if token is Some && trimmed(
            token->0@,
        ).len() >= 32 {
            r matches TokenAction::Ready(found) && found@ == trimmed(token->0@)
        } else if token is Some && trimmed(token->0@).len() > 0 {
            r matches TokenAction::Fail(reason) && reason@
                == "OPUS_GW_RS_TOKEN trop court (<32 car.)"@
        } else {
            r matches TokenAction::ReadFile { path } && path@ == if token_file is Some && trimmed(
                token_file->0@,
            ).len() > 0 {
                token_file->0@
            } else {
                "/opt/"@ + service.slug@ + "-gateway-rs/.mcp_token"@
            }
        }),
        event matches TokenEvent::FileRead { path: _, content: Ok(raw) } ==> (if trimmed(
            raw@,
        ).len() >= 32 {
            r matches TokenAction::Ready(found) && found@ == trimmed(raw@)
        } else {
            r matches TokenAction::Fail(reason) && reason@
                == "token Bearer trop court (<32 car.), refuse de demarrer"@
        }),
        event matches TokenEvent::FileRead { path, content: Err(error) } ==> (if path@ == "/opt/"@
            + service.slug@ + "-gateway-rs/.mcp_token"@ {
            r matches TokenAction::ReadFallback { path: tried, error: why } && tried@ == path@
                && why@ == error@
        } else {
            r matches TokenAction::Fail(reason) && reason@ == "token Bearer illisible ("@ + path@
                + ") : "@ + error@
        }),
        event matches TokenEvent::FallbackRead { path: _, error: _, fallback: Some(raw) } ==> (
        if trimmed(raw@).len() >= 32 {
            r matches TokenAction::Ready(found) && found@ == trimmed(raw@)
        } else {
            r matches TokenAction::Fail(reason) && reason@
                == "token Bearer trop court (<32 car.), refuse de demarrer"@
        }),
        event matches TokenEvent::FallbackRead { path, error, fallback: None } ==> (
        r matches TokenAction::Fail(reason) && reason@ == "token Bearer illisible ("@ + path@
            + " puis "@ + "/opt/astra-gateway-rs/.mcp_token"@ + ") : "@ + error@),
{
    match event {
        TokenEvent::Settings { token, token_file } => {
            if let Some(value) = token {
                let given = trim(value.as_str());
                let length: usize = given.as_str().unicode_len();
                if length > 0 {
                    if length < TOKEN_MIN_CHARS {
                        return TokenAction::Fail(
                            "OPUS_GW_RS_TOKEN trop court (<32 car.)".to_string(),
                        );
                    }
                    return TokenAction::Ready(given);
                }
            }
            if let Some(path) = token_file {
                if !trim(path.as_str()).as_str().is_empty() {
                    return TokenAction::ReadFile { path };
                }
            }
            TokenAction::ReadFile { path: service.token_file_default() }
        },
        TokenEvent::FileRead { path, content } => match content {
            Ok(raw) => file_token(raw.as_str()),
            Err(error) => if same_text(path.as_str(), service.token_file_default().as_str()) {
                TokenAction::ReadFallback { path, error }
            } else {
                TokenAction::Fail(
                    "token Bearer illisible (".to_string().concat(path.as_str()).concat(
                        ") : ",
                    ).concat(error.as_str()),
                )
            },
        },
        TokenEvent::FallbackRead { path, error, fallback } => match fallback {
            Some(raw) => file_token(raw.as_str()),
            None => TokenAction::Fail(
                "token Bearer illisible (".to_string().concat(path.as_str()).concat(
                    " puis ",
                ).concat(TOKEN_FILE_FALLBACK).concat(") : ").concat(error.as_str()),
            ),
        },
    }
}

/// The new name of a setting counts before the former one, and nothing that is set
/// under a former name is changed.
pub proof fn law_mirror_keeps_what_is_set(env: Map<Seq<char>, Seq<char>>, name: Seq<char>)
    ensures
        !blank(env, name) ==> mirrored(env).contains_key(name) && mirrored(env)[name] == env[name],
        LEGACY_PREFIX@.is_prefix_of(name) ==> (mirrored(env).contains_key(name)
            <==> env.contains_key(name)) && (env.contains_key(name) ==> mirrored(env)[name]
            == env[name]),
{
    if LEGACY_PREFIX@.is_prefix_of(name) {
        let suffix = name.skip(LEGACY_PREFIX@.len() as int);
        assert(name =~= LEGACY_PREFIX@ + suffix);
        lemma_legacy_name(suffix);
    }
}

/// A mirrored setting that is blank takes the value that it has under its former
/// name, if that is not blank.
pub proof fn law_mirror_takes_over(env: Map<Seq<char>, Seq<char>>, i: int)
    requires
        0 <= i < MIRRORED@.len(),
        blank(env, PREFIX@ + MIRRORED@[i]@),
        !blank(env, LEGACY_PREFIX@ + MIRRORED@[i]@),
    ensures
        mirrored(env).contains_key(PREFIX@ + MIRRORED@[i]@),
        mirrored(env)[PREFIX@ + MIRRORED@[i]@] == env[LEGACY_PREFIX@ + MIRRORED@[i]@],
{
    lemma_legacy_name(MIRRORED@[i]@);
    assert(is_mirrored_before(PREFIX@ + MIRRORED@[i]@, MIRRORED@.len() as int));
}

/// To mirror the settings again changes nothing.
pub proof fn law_mirror_twice(env: Map<Seq<char>, Seq<char>>)
    ensures
        mirrored(mirrored(env)) == mirrored(env),
{
    let n = MIRRORED@.len() as int;
    let once = mirrored(env);
    assert forall|name: Seq<char>| is_mirrored_before(name, n) && blank(once, name) implies blank(
        once,
        #[trigger] legacy_name(name),
    ) by {
        let i = choose|i: int| 0 <= i < n && name == PREFIX@ + #[trigger] MIRRORED@[i]@;
        lemma_legacy_name(MIRRORED@[i]@);
    }
    assert(mirrored(once) =~= once);
}

/// The service starts with an issuer, an upstream and scopes for the static token;
/// what is set to something stays as it is; and a session file that is set to
/// nothing, under both its names, stays left out.
pub proof fn law_prepared(service: ServiceModel, env: Map<Seq<char>, Seq<char>>)
    ensures
        !blank(prepared(service, env), ISSUER_VARIABLE@),
        !blank(prepared(service, env), UPSTREAM_VARIABLE@),
        !blank(prepared(service, env), TOKEN_SCOPES_VARIABLE@),
        !env.contains_key(OAUTH_ETAT_VARIABLE@) ==> !blank(
            prepared(service, env),
            OAUTH_ETAT_VARIABLE@,
        ),
        env.contains_key(OAUTH_ETAT_VARIABLE@) && blank(env, OAUTH_ETAT_VARIABLE@) && blank(
            env,
            legacy_name(OAUTH_ETAT_VARIABLE@),
        ) ==> blank(prepared(service, env), OAUTH_ETAT_VARIABLE@),
        forall|name: Seq<char>|
            !blank(env, name) ==> #[trigger] prepared(service, env).contains_key(name) && prepared(
                service,
                env,
            )[name] == env[name],
{
    lemma_variables();
    lemma_defaults(service);
    assert forall|name: Seq<char>| !blank(env, name) implies #[trigger] prepared(service, env).contains_key(
        name,
    ) && prepared(service, env)[name] == env[name] by {
        law_mirror_keeps_what_is_set(env, name);
    }
}

proof fn lemma_variables()
    ensures
        ISSUER_VARIABLE@ != UPSTREAM_VARIABLE@,
        ISSUER_VARIABLE@ != OAUTH_ETAT_VARIABLE@,
        ISSUER_VARIABLE@ != TOKEN_SCOPES_VARIABLE@,
        UPSTREAM_VARIABLE@ != OAUTH_ETAT_VARIABLE@,
        UPSTREAM_VARIABLE@ != TOKEN_SCOPES_VARIABLE@,
        OAUTH_ETAT_VARIABLE@ != TOKEN_SCOPES_VARIABLE@,
{
    reveal_strlit("OPUS_GW_RS_ISSUER");
    reveal_strlit("OPUS_GW_RS_UPSTREAM");
    reveal_strlit("OPUS_GW_RS_OAUTH_ETAT");
    reveal_strlit("OPUS_GW_RS_TOKEN_SCOPES");
    assert(ISSUER_VARIABLE@[11] == 'I');
    assert(UPSTREAM_VARIABLE@[11] == 'U');
    assert(OAUTH_ETAT_VARIABLE@[11] == 'O');
    assert(TOKEN_SCOPES_VARIABLE@[11] == 'T');
}

proof fn lemma_defaults(service: ServiceModel)
    ensures
        trimmed(service.issuer_default()).len() > 0,
        trimmed(UPSTREAM_DEFAULT@).len() > 0,
        trimmed(OAUTH_ETAT_DEFAULT@).len() > 0,
        trimmed(token_scopes_default(service)).len() > 0,
{
    reveal_strlit("https://mymcps.duckdns.org/oauth/");
    reveal_strlit("http://127.0.0.1:8794");
    reveal_strlit("/srv/astra/gateway-oauth/etat.json");
    reveal_strlit(":lecture");
    law_trimmed(service.issuer_default());
    law_trimmed(UPSTREAM_DEFAULT@);
    law_trimmed(OAUTH_ETAT_DEFAULT@);
    law_trimmed(token_scopes_default(service));
    assert(service.issuer_default()[0] == 'h');
    assert(UPSTREAM_DEFAULT@[0] == 'h');
    assert(OAUTH_ETAT_DEFAULT@[0] == '/');
    assert(token_scopes_default(service)[service.slug.len() as int] == ':');
}

/// How the search for the static token ends, where `file` is what the file at each
/// path holds, or why it cannot be read.
pub open spec fn token_outcome(
    service: ServiceModel,
    token: Option<Seq<char>>,
    token_file: Option<Seq<char>>,
    file: spec_fn(Seq<char>) -> Result<Seq<char>, Seq<char>>,
) -> TokenActionModel {
    match token_next(service, TokenEventModel::Settings { token, token_file }) {
        TokenActionModel::ReadFile { path } => match token_next(
            service,
            TokenEventModel::FileRead { path, content: file(path) },
        ) {
            TokenActionModel::ReadFallback { path, error } => token_next(
                service,
                TokenEventModel::FallbackRead {
                    path,
                    error,
                    fallback: match file(TOKEN_FILE_FALLBACK@) {
                        Ok(raw) => Some(raw),
                        Err(_) => None,
                    },
                },
            ),
            action => action,
        },
        action => action,
    }
}

/// The search for the static token ends: the service starts with a token of 32
/// characters or more and no white space around it, or it does not start.
pub proof fn law_token_fail_closed(
    service: ServiceModel,
    token: Option<Seq<char>>,
    token_file: Option<Seq<char>>,
    file: spec_fn(Seq<char>) -> Result<Seq<char>, Seq<char>>,
)
    ensures
        match token_outcome(service, token, token_file, file) {
            TokenActionModel::Ready(found) => found.len() >= 32 && trimmed(found) == found,
            TokenActionModel::Fail(_) => true,
            _ => false,
        },
{
    if let Some(value) = token {
        law_trimmed(value);
    }
    if let Ok(raw) = file(token_path(service, token_file)) {
        law_trimmed(raw);
    }
    if let Ok(raw) = file(TOKEN_FILE_FALLBACK@) {
        law_trimmed(raw);
    }
}

/// Where the static token comes from: the variable, where it is set to something;
/// else the file, and where that is the default one and cannot be read, the file
/// that stands in for it. A source that counts and is too short is not made up for
/// by a later one.
pub proof fn law_token_source(
    service: ServiceModel,
    token: Option<Seq<char>>,
    token_file: Option<Seq<char>>,
    file: spec_fn(Seq<char>) -> Result<Seq<char>, Seq<char>>,
)
    ensures
        ({
            let path = token_path(service, token_file);
            let raw = if token is Some && trimmed(token->0).len() > 0 {
                token
            } else if file(path) is Ok {
                Some(file(path)->Ok_0)
            } else if path == service.token_file_default() && file(TOKEN_FILE_FALLBACK@) is Ok {
                Some(file(TOKEN_FILE_FALLBACK@)->Ok_0)
            } else {
                None
            };
            token_outcome(service, token, token_file, file) is Ready <==> raw is Some && trimmed(
                raw->0,
            ).len() >= 32
        }),
        token_outcome(service, token, token_file, file) matches TokenActionModel::Ready(found) ==> found
            == if token is Some && trimmed(token->0).len() > 0 {
            trimmed(token->0)
        } else if file(token_path(service, token_file)) is Ok {
            trimmed(file(token_path(service, token_file))->Ok_0)
        } else {
            trimmed(file(TOKEN_FILE_FALLBACK@)->Ok_0)
        },
{
}

/// A setting is blank where it is unset, and where every character of it is white
/// space.
pub proof fn law_blank(env: Map<Seq<char>, Seq<char>>, name: Seq<char>)
    ensures
        blank(env, name) <==> !env.contains_key(name) || forall|i: int|
            0 <= i < env[name].len() ==> is_white_space(#[trigger] env[name][i]),
{
    law_trimmed(env[name]);
}

/// What mirroring makes of each name that starts as the settings do: of twelve of
/// them, the value under the former name, where it is not blank and the one under the
/// new name is; of any other, what it was.
pub proof fn law_mirror_by_name(env: Map<Seq<char>, Seq<char>>, suffix: Seq<char>)
    ensures
        ({
            let name = "OPUS_GW_RS_"@ + suffix;
            let former = "ASTRA_GW_RS_"@ + suffix;
            let takes = blank(env, name) && !blank(env, former) && {
                ||| suffix == "ISSUER"@
                ||| suffix == "UPSTREAM"@
                ||| suffix == "PORT"@
                ||| suffix == "TOKEN"@
                ||| suffix == "TOKEN_FILE"@
                ||| suffix == "TOKEN_SCOPES"@
                ||| suffix == "CONSENT_HASH"@
                ||| suffix == "OAUTH_ETAT"@
                ||| suffix == "OAUTH_EXPECTED_RESOURCE"@
                ||| suffix == "JWT_SECRET"@
                ||| suffix == "JWT_ISSUER"@
                ||| suffix == "JWT_AUDIENCE"@
            };
            &&& takes ==> mirrored(env).contains_key(name) && mirrored(env)[name] == env[former]
            &&& !takes ==> (mirrored(env).contains_key(name) <==> env.contains_key(name))
            &&& !takes && env.contains_key(name) ==> mirrored(env)[name] == env[name]
        }),
{
    let name = "OPUS_GW_RS_"@ + suffix;
    let n = MIRRORED@.len() as int;
    lemma_legacy_name(suffix);
    if is_mirrored_before(name, n) {
        let i = choose|i: int| 0 <= i < n && name == PREFIX@ + #[trigger] MIRRORED@[i]@;
        assert(name.skip(PREFIX@.len() as int) =~= suffix);
        assert((PREFIX@ + MIRRORED@[i]@).skip(PREFIX@.len() as int) =~= MIRRORED@[i]@);
        assert(suffix == MIRRORED@[i]@);
    }
    assert forall|i: int| 0 <= i < n && suffix == #[trigger] MIRRORED@[i]@ implies is_mirrored_before(
        name,
        n,
    ) by {}
    assert(MIRRORED@[0]@ == "ISSUER"@);
    assert(MIRRORED@[1]@ == "UPSTREAM"@);
    assert(MIRRORED@[2]@ == "PORT"@);
    assert(MIRRORED@[3]@ == "TOKEN"@);
    assert(MIRRORED@[4]@ == "TOKEN_FILE"@);
    assert(MIRRORED@[5]@ == "TOKEN_SCOPES"@);
    assert(MIRRORED@[6]@ == "CONSENT_HASH"@);
    assert(MIRRORED@[7]@ == "OAUTH_ETAT"@);
    assert(MIRRORED@[8]@ == "OAUTH_EXPECTED_RESOURCE"@);
    assert(MIRRORED@[9]@ == "JWT_SECRET"@);
    assert(MIRRORED@[10]@ == "JWT_ISSUER"@);
    assert(MIRRORED@[11]@ == "JWT_AUDIENCE"@);
}

/// Mirroring leaves every name alone that does not start as the settings do.
pub proof fn law_mirror_touches_nothing_else(env: Map<Seq<char>, Seq<char>>, name: Seq<char>)
    requires
        !"OPUS_GW_RS_"@.is_prefix_of(name),
    ensures
        mirrored(env).contains_key(name) <==> env.contains_key(name),
        env.contains_key(name) ==> mirrored(env)[name] == env[name],
{
    let n = MIRRORED@.len() as int;
    if is_mirrored_before(name, n) {
        let i = choose|i: int| 0 <= i < n && name == PREFIX@ + #[trigger] MIRRORED@[i]@;
        assert(PREFIX@ =~= name.subrange(0, PREFIX@.len() as int));
    }
}

/// Each of the settings with a default has exactly that default where it is blank after
/// mirroring (the session file, where it is unset), whatever else is set; every other
/// name, and each of these that is set to something, is what mirroring made of it.
pub proof fn law_defaults(
    service: ServiceModel,
    env: Map<Seq<char>, Seq<char>>,
    name: Seq<char>,
)
    ensures
        ({
            let start = mirrored(env);
            let ready = prepared(service, env);
            let missing = {
                ||| name == "OPUS_GW_RS_ISSUER"@ && blank(start, name)
                ||| name == "OPUS_GW_RS_UPSTREAM"@ && blank(start, name)
                ||| name == "OPUS_GW_RS_TOKEN_SCOPES"@ && blank(start, name)
                ||| name == "OPUS_GW_RS_OAUTH_ETAT"@ && !start.contains_key(name)
            };
            &&& missing ==> ready.contains_key(name)
            &&& missing && name == "OPUS_GW_RS_ISSUER"@ ==> ready[name]
                == "https://mymcps.duckdns.org/oauth/"@ + service.slug
            &&& missing && name == "OPUS_GW_RS_UPSTREAM"@ ==> ready[name]
                == "http://127.0.0.1:8794"@
            &&& missing && name == "OPUS_GW_RS_OAUTH_ETAT"@ ==> ready[name]
                == "/srv/astra/gateway-oauth/etat.json"@
            &&& missing && name == "OPUS_GW_RS_TOKEN_SCOPES"@ ==> ready[name] == service.slug
                + ":lecture"@ + " "@ + (service.slug + ":ecriture"@)
            &&& !missing ==> (ready.contains_key(name) <==> start.contains_key(name))
            &&& !missing && start.contains_key(name) ==> ready[name] == start[name]
        }),
{
    lemma_variables();
}

/// What is set under names other than the one of a setting has no say in its default:
/// two environments that agree on it under both its names are prepared alike for it.
pub proof fn law_defaults_depend_on_nothing_else(
    service: ServiceModel,
    one: Map<Seq<char>, Seq<char>>,
    two: Map<Seq<char>, Seq<char>>,
    suffix: Seq<char>,
)
    requires
        one.contains_key("OPUS_GW_RS_"@ + suffix) == two.contains_key("OPUS_GW_RS_"@ + suffix),
        one.contains_key("OPUS_GW_RS_"@ + suffix) ==> one["OPUS_GW_RS_"@ + suffix]
            == two["OPUS_GW_RS_"@ + suffix],
        one.contains_key("ASTRA_GW_RS_"@ + suffix) == two.contains_key("ASTRA_GW_RS_"@ + suffix),
        one.contains_key("ASTRA_GW_RS_"@ + suffix) ==> one["ASTRA_GW_RS_"@ + suffix]
            == two["ASTRA_GW_RS_"@ + suffix],
    ensures
        prepared(service, one).contains_key("OPUS_GW_RS_"@ + suffix) == prepared(
            service,
            two,
        ).contains_key("OPUS_GW_RS_"@ + suffix),
        prepared(service, one).contains_key("OPUS_GW_RS_"@ + suffix) ==> prepared(service, one)[
        "OPUS_GW_RS_"@ + suffix] == prepared(service, two)["OPUS_GW_RS_"@ + suffix],
{
    law_mirror_by_name(one, suffix);
    law_mirror_by_name(two, suffix);
    law_defaults(service, one, "OPUS_GW_RS_"@ + suffix);
    law_defaults(service, two, "OPUS_GW_RS_"@ + suffix);
}

/// The numbers that the service starts with, and the names of the settings that it
/// reads.
pub proof fn law_fixed_settings()
    ensures
        PORT_DEFAULT == 18996,
        TOKEN_MIN_CHARS == 32,
        POST_TIMEOUT_VARIABLE@ == "OPUS_GW_RS_POST_TIMEOUT_SECS"@,
        TOKEN_VARIABLE@ == "OPUS_GW_RS_TOKEN"@,
        TOKEN_FILE_VARIABLE@ == "OPUS_GW_RS_TOKEN_FILE"@,
        TOKEN_FILE_FALLBACK@ == "/opt/astra-gateway-rs/.mcp_token"@,
        ISSUER_VARIABLE@ == "OPUS_GW_RS_ISSUER"@,
        UPSTREAM_VARIABLE@ == "OPUS_GW_RS_UPSTREAM"@,
        OAUTH_ETAT_VARIABLE@ == "OPUS_GW_RS_OAUTH_ETAT"@,
        TOKEN_SCOPES_VARIABLE@ == "OPUS_GW_RS_TOKEN_SCOPES"@,
{
}

/// The token in the variable is taken whole, less the white space around it, and no
/// file is looked at: with 32 characters or more the service starts with it, with fewer
/// it does not start.
pub proof fn law_token_of_the_variable(
    service: ServiceModel,
    before: Seq<char>,
    token: Seq<char>,
    after: Seq<char>,
    token_file: Option<Seq<char>>,
    file: spec_fn(Seq<char>) -> Result<Seq<char>, Seq<char>>,
)
    requires
        forall|i: int| 0 <= i < before.len() ==> is_white_space(#[trigger] before[i]),
        forall|i: int| 0 <= i < after.len() ==> is_white_space(#[trigger] after[i]),
        token.len() > 0,
        !is_white_space(token[0]),
        !is_white_space(token.last()),
    ensures
        token.len() >= 32 ==> token_outcome(
            service,
            Some(before + token + after),
            token_file,
            file,
        ) == TokenActionModel::Ready(token),
        token.len() < 32 ==> token_outcome(service, Some(before + token + after), token_file, file)
            == TokenActionModel::Fail("OPUS_GW_RS_TOKEN trop court (<32 car.)"@),
{
    law_trimmed_of_padded(before, token, after);
}

/// Without a token in the variable the file counts: the one that is set, or else the
/// one of the service under `/opt/`. Its token is taken whole, less the white space
/// around it, if it has 32 characters or more; else the service does not start. Where
/// the file of the service cannot be read, and no other is set, the one that stands in
/// for it counts in the same way.
pub proof fn law_token_of_the_file(
    service: ServiceModel,
    variable: Option<Seq<char>>,
    token_file: Option<Seq<char>>,
    before: Seq<char>,
    token: Seq<char>,
    after: Seq<char>,
    file: spec_fn(Seq<char>) -> Result<Seq<char>, Seq<char>>,
)
    requires
        variable matches Some(value) ==> forall|i: int|
            0 <= i < value.len() ==> is_white_space(#[trigger] value[i]),
        forall|i: int| 0 <= i < before.len() ==> is_white_space(#[trigger] before[i]),
        forall|i: int| 0 <= i < after.len() ==> is_white_space(#[trigger] after[i]),
        token.len() > 0 ==> !is_white_space(token[0]) && !is_white_space(token.last()),
    ensures
        ({
            let own = "/opt/"@ + service.slug + "-gateway-rs/.mcp_token"@;
            let path = if token_file is Some && exists|i: int|
                0 <= i < token_file->0.len() && !is_white_space(#[trigger] token_file->0[i]) {
                token_file->0
            } else {
                own
            };
            let read = {
                ||| file(path) == Ok::<Seq<char>, Seq<char>>(before + token + after)
                ||| path == own && file(path) is Err && file("/opt/astra-gateway-rs/.mcp_token"@)
                    == Ok::<Seq<char>, Seq<char>>(before + token + after)
            };
            &&& read && token.len() >= 32 ==> token_outcome(service, variable, token_file, file)
                == TokenActionModel::Ready(token)
            &&& read && token.len() < 32 ==> token_outcome(service, variable, token_file, file)
                == TokenActionModel::Fail(
                "token Bearer trop court (<32 car.), refuse de demarrer"@,
            )
        }),
{
    law_trimmed_of_padded(before, token, after);
    if let Some(value) = variable {
        law_trimmed(value);
    }
    if let Some(path) = token_file {
        law_trimmed(path);
    }
}

/// Where no file can be read the service does not start, and says which files it tried
/// and why the first could not be read.
pub proof fn law_token_unreadable(
    service: ServiceModel,
    variable: Option<Seq<char>>,
    token_file: Option<Seq<char>>,
    file: spec_fn(Seq<char>) -> Result<Seq<char>, Seq<char>>,
)
    requires
        variable matches Some(value) ==> forall|i: int|
            0 <= i < value.len() ==> is_white_space(#[trigger] value[i]),
    ensures
        ({
            let own = "/opt/"@ + service.slug + "-gateway-rs/.mcp_token"@;
            let path = if token_file is Some && exists|i: int|
                0 <= i < token_file->0.len() && !is_white_space(#[trigger] token_file->0[i]) {
                token_file->0
            } else {
                own
            };
            &&& path != own && file(path) is Err ==> token_outcome(
                service,
                variable,
                token_file,
                file,
            ) == TokenActionModel::Fail(
                "token Bearer illisible ("@ + path + ") : "@ + file(path)->Err_0,
            )
            &&& path == own && file(path) is Err && file("/opt/astra-gateway-rs/.mcp_token"@) is Err
                ==> token_outcome(service, variable, token_file, file) == TokenActionModel::Fail(
                "token Bearer illisible ("@ + path + " puis "@ + "/opt/astra-gateway-rs/.mcp_token"@
                    + ") : "@ + file(path)->Err_0,
            )
        }),
{
    if let Some(value) = variable {
        law_trimmed(value);
    }
    if let Some(path) = token_file {
        law_trimmed(path);
    }
}

} // verus!
