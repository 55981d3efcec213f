//! The provider-agnostic OAuth2 handshake engine.
//!
//! Request phase: mint an anti-forgery state and build the provider's
//! authorization URL. Callback phase: an ordered pipeline — extract the
//! `code` and `state` parameters, validate and consume the state, exchange
//! the code for an access token, fetch the external identity, resolve it to
//! a local user, and issue a session — where each stage must succeed before
//! the next runs. The network calls between stages are performed by the
//! caller, outside any lock, and their outcomes handed back in.

use vstd::prelude::*;
use crate::errors::FictError;
use crate::model::{
    User, UserStore, has_email, resolve_id, resolve_name, resolve_rows,
};
use crate::numfmt::dec_i64;
use crate::numfmt::i64_to_string;
use crate::session::{Session, SessionStore, has_token};
use crate::state::Shared;
use crate::random::STATE_LEN;
use crate::random::is_state_char;

verus! {

/// Configuration options common to all supported OAuth providers: created
/// once at process start from trusted configuration, never mutated.
#[derive(Clone)]
pub struct Options {
    /// Provider name, the last segment of its routes.
    pub name: String,
    /// Route prefix under which the provider's routes are registered.
    pub root: String,
    pub client_id: String,
    pub client_secret: String,
    /// The provider's authorization endpoint.
    pub request_uri: String,
    /// The provider's token endpoint.
    pub token_uri: String,
}

impl Options {
    /// The route of the request handler.
    pub open spec fn spec_request_glob(self) -> Seq<char> {
        self.root@ + "/"@ + self.name@
    }

    /// The route of the callback handler.
    pub open spec fn spec_callback_glob(self) -> Seq<char> {
        self.root@ + "/"@ + self.name@ + "/callback"@
    }

    /// The full URL the provider redirects back to.
    pub open spec fn spec_callback_url(self) -> Seq<char> {
        "http://localhost:3000/"@ + self.spec_callback_glob()
    }

    /// The authorization URL the request phase redirects to.
    pub open spec fn spec_authorization_url(self, scopes: Seq<char>, state: Seq<char>) -> Seq<
        char,
    > {
        self.request_uri@ + "?client_id="@ + self.client_id@ + "&redirect_uri="@
            + self.spec_callback_url() + "&scope="@ + scopes + "&state="@ + state
    }

    /// The body of the code-for-token exchange request.
    pub open spec fn spec_token_body(self, code: Seq<char>) -> Seq<char> {
        "client_id="@ + self.client_id@ + "&client_secret="@ + self.client_secret@ + "&code="@
            + code
    }

    /// Generate the route for the request handler.
    pub fn request_glob(&self) -> (r: String)
        ensures
            r@ == self.spec_request_glob(),
    {
        let mut s = self.root.clone();
        s.append("/");
        s.append(self.name.as_str());
        proof {
            assert(s@ =~= self.spec_request_glob());
        }
        s
    }

    /// Generate the route for the callback handler.
    pub fn callback_glob(&self) -> (r: String)
        ensures
            r@ == self.spec_callback_glob(),
    {
        let mut s = self.root.clone();
        s.append("/");
        s.append(self.name.as_str());
        s.append("/callback");
        proof {
            assert(s@ =~= self.spec_callback_glob());
        }
        s
    }

    /// Generate the full URL of the callback handler, computed
    /// deterministically from the provider's name and route prefix.
    pub fn callback_url(&self) -> (r: String)
        ensures
            r@ == self.spec_callback_url(),
    {
        let mut s = String::from_str("http://localhost:3000/");
        s.append(self.callback_glob().as_str());
        proof {
            assert(s@ =~= self.spec_callback_url());
        }
        s
    }

    /// Build the authorization URL carrying `client_id`, `redirect_uri`,
    /// `scope` and `state` query parameters.
    pub fn authorization_url(&self, scopes: &str, state: &str) -> (r: String)
        ensures
            r@ == self.spec_authorization_url(scopes@, state@),
    {
        let mut s = self.request_uri.clone();
        s.append("?client_id=");
        s.append(self.client_id.as_str());
        s.append("&redirect_uri=");
        s.append(self.callback_url().as_str());
        s.append("&scope=");
        s.append(scopes);
        s.append("&state=");
        s.append(state);
        proof {
            assert(s@ =~= self.spec_authorization_url(scopes@, state@));
        }
        s
    }

    /// Build the body of the code-for-token exchange request.
    pub fn token_request_body(&self, code: &str) -> (r: String)
        ensures
            r@ == self.spec_token_body(code@),
    {
        let mut s = String::from_str("client_id=");
        s.append(self.client_id.as_str());
        s.append("&client_secret=");
        s.append(self.client_secret.as_str());
        s.append("&code=");
        s.append(code);
        proof {
            assert(s@ =~= self.spec_token_body(code@));
        }
        s
    }
}

/// Common behaviour shared among OAuth providers: one implementation per
/// external identity service supplies its options, its scopes, and its
/// user-data lookup. The handshake engine is written once against this
/// capability. Nothing is promised of these methods; the engine states what
/// holds whatever they return.
pub trait Provider: Sized {
    /// Access the common provider options.
    fn options(&self) -> &Options;

    /// The scopes to request during authorization, in the provider's format.
    fn scopes(&self) -> &'static str;

    /// Use the access token acquired on behalf of the authenticating user to
    /// fetch the user's email address and username from the provider's API.
    fn get_user_data(&self, token: &str) -> Result<(String, String), FictError>;
}

/// The views of a decoded query-parameter list.
pub open spec fn pair_views(ps: Seq<(String, String)>) -> Seq<(Seq<char>, Seq<char>)> {
    ps.map_values(|p: (String, String)| (p.0@, p.1@))
}

/// The value of the last pair carrying `key`, as a repeated parameter
/// overwrites an earlier one.
pub open spec fn last_param(ps: Seq<(Seq<char>, Seq<char>)>, key: Seq<char>) -> Option<Seq<char>>
    decreases ps.len(),
{
    if ps.len() == 0 {
        None
    } else if ps.last().0 == key {
        Some(ps.last().1)
    } else {
        last_param(ps.drop_last(), key)
    }
}

/// The `(code, state)` pair a callback request carries, when it carries
/// both; `None` on a request with no query string or with either parameter
/// absent.
pub open spec fn spec_params(q: Option<Vec<(String, String)>>) -> Option<(Seq<char>, Seq<char>)> {
    match q {
        None => None,
        Some(v) => {
            let ps = pair_views(v@);
            if last_param(ps, "code"@) is Some && last_param(ps, "state"@) is Some {
                Some((last_param(ps, "code"@)->Some_0, last_param(ps, "state"@)->Some_0))
            } else {
                None
            }
        },
    }
}

/// The view of an optional string.
pub open spec fn opt_view(o: Option<String>) -> Option<Seq<char>> {
    match o {
        Some(s) => Some(s@),
        None => None,
    }
}

/// Extract the `code` and `state` query parameters from the callback
/// request's decoded query pairs (`None` when the request carried no query
/// string at all). Unrecognized parameters are ignored. Fails with
/// `MissingParameters` if either parameter is absent.
pub fn extract_callback_params(query: &Option<Vec<(String, String)>>) -> (r: Result<
    (String, String),
    FictError,
>)
    ensures
        match spec_params(*query) {
            Some(cs) => r matches Ok(p) && p.0@ == cs.0 && p.1@ == cs.1,
            None => r == Err::<(String, String), FictError>(FictError::MissingParameters),
        },
{
    match query {
        None => Err(FictError::MissingParameters),
        Some(pairs) => {
            let ghost ps = pair_views(pairs@);
            let code_key = String::from_str("code");
            let state_key = String::from_str("state");
            let mut code_op: Option<String> = None;
            let mut state_op: Option<String> = None;
            let mut i: usize = 0;
            while i < pairs.len()
                invariant
                    i <= pairs@.len(),
                    ps == pair_views(pairs@),
                    code_key@ == "code"@,
                    state_key@ == "state"@,
                    opt_view(code_op) == last_param(ps.take(i as int), "code"@),
                    opt_view(state_op) == last_param(ps.take(i as int), "state"@),
                decreases pairs@.len() - i,
            {
                let pair = &pairs[i];
                if pair.0.eq(&code_key) {
                    code_op = Some(pair.1.clone());
                } else if pair.0.eq(&state_key) {
                    state_op = Some(pair.1.clone());
                }
                i += 1;
                proof {
                    reveal_strlit("code");
                    reveal_strlit("state");
                    assert("code"@.len() != "state"@.len());
                    assert(ps.take(i as int).drop_last() =~= ps.take(i as int - 1));
                    assert(ps.take(i as int).last() == ps[i as int - 1]);
                }
            }
            proof {
                assert(ps.take(i as int) =~= ps);
            }
            match (code_op, state_op) {
                (Some(code), Some(state)) => Ok((code, state)),
                _ => Err(FictError::MissingParameters),
            }
        },
    }
}

/// Ensure that the `state` echoed by the provider is one this service
/// issued, consuming it: fails with `InvalidState` — a possible forgery,
/// never to fall through to the token exchange — when it is unknown.
pub fn validate_state(shared: &mut Shared, state: &str) -> (r: Result<(), FictError>)
    requires
        old(shared).wf(),
    ensures
        final(shared).wf(),
        final(shared).states() == old(shared).states().remove(state@),
        if old(shared).states().contains(state@) {
            r == Ok::<(), FictError>(())
        } else {
            r == Err::<(), FictError>(FictError::InvalidState)
        },
{
    if shared.validate_state(state) {
        Ok(())
    } else {
        Err(FictError::InvalidState)
    }
}

/// The outbound code-for-token exchange request the callback phase asks its
/// caller to perform: a POST of `body` to `uri`, accepting JSON.
#[derive(Debug)]
pub struct TokenRequest {
    /// The provider's token endpoint.
    pub uri: String,
    /// `client_id`, `client_secret` and `code`, form-encoded.
    pub body: String,
}

/// First half of the callback pipeline, run under the state store's lock:
/// extract the parameters, validate and consume the state, and construct
/// the token-exchange request for the caller to send. A request with
/// missing parameters never reaches state validation; an unknown state
/// yields `InvalidState` and builds no exchange request.
pub fn callback_start(o: &Options, shared: &mut Shared, query: &Option<Vec<(String, String)>>) -> (r:
    Result<TokenRequest, FictError>)
    requires
        old(shared).wf(),
    ensures
        final(shared).wf(),
        match spec_params(*query) {
            None => r == Err::<TokenRequest, FictError>(FictError::MissingParameters)
                && final(shared).states() == old(shared).states(),
            Some(cs) => {
                if old(shared).states().contains(cs.1) {
                    &&& final(shared).states() == old(shared).states().remove(cs.1)
                    &&& r matches Ok(tr) && tr.uri@ == o.token_uri@ && tr.body@
                        == o.spec_token_body(cs.0)
                } else {
                    &&& r == Err::<TokenRequest, FictError>(FictError::InvalidState)
                    &&& final(shared).states() == old(shared).states()
                }
            },
        },
{
    let (code, state) = match extract_callback_params(query) {
        Ok(p) => p,
        Err(e) => { return Err(e); },
    };
    match validate_state(shared, state.as_str()) {
        Ok(()) => {},
        Err(e) => { return Err(e); },
    }
    Ok(TokenRequest { uri: o.token_uri.clone(), body: o.token_request_body(code.as_str()) })
}

/// The `access_token` member of the JSON object `body` parses to, when
/// `body` parses to an object carrying one as a string.
pub uninterp spec fn access_token_of(body: Seq<char>) -> Option<Seq<char>>;

/// Relies on rustc_serialize's `Json::from_str`, `Json::find` and
/// `Json::as_string`: the `access_token` string member of the JSON object
/// the body parses to, if the body parses to an object holding one, and
/// nothing otherwise. The result depends on the body's characters alone.
#[verifier::external_body]
fn extract_access_token(body: &str) -> (r: Option<String>)
    ensures
        r is Some <==> access_token_of(body@) is Some,
        r matches Some(t) ==> t@ == access_token_of(body@)->Some_0,
{
    match rustc_serialize::json::Json::from_str(body) {
        Ok(json) => match json.find("access_token") {
            Some(v) => match v.as_string() {
                Some(s) => Some(s.to_string()),
                None => None,
            },
            None => None,
        },
        Err(_) => None,
    }
}

/// Second half of the token exchange: judge the outcome the caller brought
/// back. `None` stands for any transport error, non-success status or
/// unreadable body; a readable body yields the access token exactly when it
/// is a JSON object carrying one, and `TokenExchangeFailed` otherwise.
pub fn token_from_response(outcome: &Option<String>) -> (r: Result<String, FictError>)
    ensures
        match *outcome {
            None => r == Err::<String, FictError>(FictError::TokenExchangeFailed),
            Some(body) => match access_token_of(body@) {
                Some(t) => r matches Ok(tok) && tok@ == t,
                None => r == Err::<String, FictError>(FictError::TokenExchangeFailed),
            },
        },
{
    match outcome {
        None => Err(FictError::TokenExchangeFailed),
        Some(body) => match extract_access_token(body.as_str()) {
            Some(token) => Ok(token),
            None => Err(FictError::TokenExchangeFailed),
        },
    }
}

/// Resolve a fetched external identity to a local user and issue it a
/// session: the last two stages of the pipeline, on the identity the
/// provider's API returned. A user row created here is kept even when the
/// session insert then fails, just as a consumed state is not refunded.
pub fn complete_login(
    users: &mut UserStore,
    sessions: &mut SessionStore,
    email: String,
    name: String,
) -> (r: Result<Session, FictError>)
    requires
        old(users).wf(),
        old(sessions).wf(),
    ensures
        final(users).wf(),
        final(sessions).wf(),
        if has_email(old(users)@, email@) || old(users)@.len() + 1 < 0x7fff_ffff_ffff_ffff {
            &&& final(users)@ == resolve_rows(old(users)@, email@, name@)
            &&& match r {
                Ok(s) => {
                    &&& s.user_id == resolve_id(old(users)@, email@)
                    &&& s.id == old(sessions)@.len() + 1
                    &&& !has_token(old(sessions)@, s.token)
                    &&& final(sessions)@ == old(sessions)@.push((s.token, s.user_id))
                },
                Err(e) => e == FictError::StorageError && final(sessions)@ == old(sessions)@,
            }
        } else {
            r == Err::<Session, FictError>(FictError::StorageError) && final(users)@ == old(
                users,
            )@ && final(sessions)@ == old(sessions)@
        },
{
    let ghost em = email@;
    let user = match User::find_or_create(users, email, name) {
        Ok(u) => u,
        Err(e) => { return Err(e); },
    };
    proof {
        old(users).lemma_wf_bounds();
        if has_email(old(users)@, em) {
            let s = crate::model::email_slot(old(users)@, em);
            assert(0 <= s < old(users)@.len());
        }
        assert(1 <= resolve_id(old(users)@, em) <= users@.len());
        assert(resolve_id(old(users)@, em) <= 0x7fff_ffff_ffff_ffff);
    }
    Session::assign(sessions, &user)
}

/// Fetch the authenticated user's identity from the provider's API and
/// resolve it to a local user: whatever identity came back, the store's
/// email-uniqueness discipline is kept, and a returned user is persisted.
pub fn find_user<P: Provider>(p: &P, users: &mut UserStore, token: &str) -> (r: Result<
    User,
    FictError,
>)
    requires
        old(users).wf(),
    ensures
        final(users).wf(),
        r is Err ==> final(users)@ == old(users)@,
        r matches Ok(u) ==> u.id is Some && exists|em: Seq<char>, nm: Seq<char>|
            {
                &&& final(users)@ == #[trigger] resolve_rows(old(users)@, em, nm)
                &&& u.email@ == em
                &&& u.id == Some(resolve_id(old(users)@, em) as i64)
                &&& u.name@ == resolve_name(old(users)@, em, nm)
            },
{
    let (email, username) = match p.get_user_data(token) {
        Ok(d) => d,
        Err(e) => { return Err(e); },
    };
    let ghost em = email@;
    let ghost nm = username@;
    let r = User::find_or_create(users, email, username);
    match r {
        Ok(u) => {
            proof {
                assert(users@ == resolve_rows(old(users)@, em, nm));
            }
            Ok(u)
        },
        Err(e) => Err(e),
    }
}

/// The whole callback tail after the token exchange: fetch the identity,
/// resolve the user, issue the session. A failed identity fetch or a failed
/// insert issues nothing.
pub fn complete_callback<P: Provider>(
    p: &P,
    users: &mut UserStore,
    sessions: &mut SessionStore,
    token: &str,
) -> (r: Result<Session, FictError>)
    requires
        old(users).wf(),
        old(sessions).wf(),
    ensures
        final(users).wf(),
        final(sessions).wf(),
        final(users)@ == old(users)@ || exists|em: Seq<char>, nm: Seq<char>|
            final(users)@ == #[trigger] resolve_rows(old(users)@, em, nm),
        match r {
            Ok(s) => {
                &&& s.id == old(sessions)@.len() + 1
                &&& !has_token(old(sessions)@, s.token)
                &&& final(sessions)@ == old(sessions)@.push((s.token, s.user_id))
                &&& 1 <= s.user_id <= final(users)@.len()
            },
            Err(_) => final(sessions)@ == old(sessions)@,
        },
{
    let user = match find_user(p, users, token) {
        Ok(u) => u,
        Err(e) => { return Err(e); },
    };
    let r = Session::assign(sessions, &user);
    proof {
        if r is Ok {
            let (em, nm) = choose|em: Seq<char>, nm: Seq<char>|
                {
                    &&& users@ == #[trigger] resolve_rows(old(users)@, em, nm)
                    &&& user.email@ == em
                    &&& user.id == Some(resolve_id(old(users)@, em) as i64)
                    &&& user.name@ == resolve_name(old(users)@, em, nm)
                };
            assert(users@ == resolve_rows(old(users)@, em, nm));
            old(users).lemma_wf_bounds();
            if has_email(old(users)@, em) {
                let s = crate::model::email_slot(old(users)@, em);
                assert(0 <= s < old(users)@.len());
                assert(users@.len() == old(users)@.len());
            } else {
                assert(users@.len() == old(users)@.len() + 1);
            }
            assert(1 <= resolve_id(old(users)@, em) <= users@.len());
            assert(resolve_id(old(users)@, em) <= 0x7fff_ffff_ffff_ffff);
        }
    }
    r
}

/// *Phase 1:* the request handler's decision: mint a fresh state, remember
/// it as outstanding, and answer a 302 redirect to the provider's
/// authorization URL carrying it.
pub fn request_handler(o: &Options, scopes: &str, shared: &mut Shared) -> (r: (u16, String))
    requires
        old(shared).wf(),
    ensures
        final(shared).wf(),
        r.0 == 302,
        exists|st: Seq<char>|
            {
                &&& final(shared).states() == #[trigger] old(shared).states().insert(st)
                &&& st.len() == STATE_LEN
                &&& (forall|i: int| 0 <= i < st.len() ==> is_state_char(#[trigger] st[i]))
                &&& r.1@ == o.spec_authorization_url(scopes@, st)
            },
{
    let state = shared.generate_state();
    let url = o.authorization_url(scopes, state.as_str());
    proof {
        assert(shared.states() == old(shared).states().insert(state@));
    }
    (302, url)
}

/// The 200 response confirming session creation; the bearer token is
/// conveyed here, as there is no separate mechanism to retrieve it later.
pub fn success_response(s: &Session) -> (r: (u16, String))
    ensures
        r.0 == 200,
        r.1@ == "You've successfully created a session: ["@ + dec_i64(s.token as int) + "]"@,
{
    let mut body = String::from_str("You've successfully created a session: [");
    body.append(i64_to_string(s.token).as_str());
    body.append("]");
    proof {
        assert(body@ =~= "You've successfully created a session: ["@ + dec_i64(s.token as int)
            + "]"@);
    }
    (200, body)
}

/// The 400 response carrying a pipeline failure's description.
pub fn failure_response(e: &FictError) -> (r: (u16, String))
    ensures
        r.0 == 400,
        r.1@ == e.description_spec(),
{
    (400, e.description())
}

/// Turn the callback pipeline's outcome into the HTTP response: 200 with
/// the session confirmation on success, 400 with the failure's description
/// otherwise.
pub fn callback_response(result: &Result<Session, FictError>) -> (r: (u16, String))
    ensures
        match *result {
            Ok(s) => r.0 == 200 && r.1@ == "You've successfully created a session: ["@ + dec_i64(
                s.token as int,
            ) + "]"@,
            Err(e) => r.0 == 400 && r.1@ == e.description_spec(),
        },
{
    match result {
        Ok(s) => success_response(s),
        Err(e) => failure_response(e),
    }
}

} // verus!
