//! Signing in: what the sign-in provider hands back in the URL fragment,
//! and the checks of it against what was stored when sign-in began.

use crate::app_state::{UserInfo, UserInfoView};
use crate::text::{chars_of, same_text, split_chars, split_text};
use vstd::prelude::*;
use vstd::string::*;

verus! {

/// The session storage key of the nonce sent with the sign-in request.
pub const NONCE_KEY: &'static str = "nonce";

/// The session storage key of the state sent with the sign-in request.
pub const STATE_KEY: &'static str = "state";

/// The local storage key of the signed-in user's identity token.
pub const ID_TOKEN_KEY: &'static str = "id_token";

/// Why signing in failed.
pub enum AuthError {
    /// The identity token could not be read; the text says why.
    TokenParseError(String),
    /// The identity token's signature or claims did not hold; the text says
    /// why.
    TokenValidationError(String),
    MismatchedNonce,
    MismatchedState,
    MissingIdTokenInResponse,
    MissingStateInResponse,
    MissingStateInStorage,
    MissingNonceInStorage,
    MissingTokenSigningKey,
    /// The URL fragment has a part that is not a `key=value` pair.
    MalformedResponse,
    Other(String),
}

/// The sentences that describe the errors.
pub const MISMATCHED_NONCE: &'static str = "mismatched nonce in the token response";
pub const MISMATCHED_STATE: &'static str = "mismatched state in the token response";
pub const MISSING_ID_TOKEN: &'static str = "missing id_token in the response";
pub const MISSING_STATE_IN_RESPONSE: &'static str = "missing state in the response";
pub const MISSING_STATE_IN_STORAGE: &'static str = "missing state in session storage";
pub const MISSING_NONCE_IN_STORAGE: &'static str = "missing nonce in session storage";
pub const MISSING_SIGNING_KEY: &'static str = "missing signing key from discovery response used to sign token";
pub const MALFORMED_RESPONSE: &'static str = "malformed parameters in the response";

/// The sentence that describes an error.
pub open spec fn auth_error_text(e: AuthError) -> Seq<char> {
    match e {
        AuthError::TokenParseError(m) => m@,
        AuthError::TokenValidationError(m) => m@,
        AuthError::MismatchedNonce => MISMATCHED_NONCE@,
        AuthError::MismatchedState => MISMATCHED_STATE@,
        AuthError::MissingIdTokenInResponse => MISSING_ID_TOKEN@,
        AuthError::MissingStateInResponse => MISSING_STATE_IN_RESPONSE@,
        AuthError::MissingStateInStorage => MISSING_STATE_IN_STORAGE@,
        AuthError::MissingNonceInStorage => MISSING_NONCE_IN_STORAGE@,
        AuthError::MissingTokenSigningKey => MISSING_SIGNING_KEY@,
        AuthError::MalformedResponse => MALFORMED_RESPONSE@,
        AuthError::Other(m) => m@,
    }
}

impl AuthError {
    /// An error that carries the text `value`.
    pub fn from_text(value: &str) -> (e: AuthError)
        ensures
            e matches AuthError::Other(m) && m@ == value@,
    {
        AuthError::Other(String::from_str(value))
    }

    /// The sentence that describes the error.
    pub fn message(&self) -> (m: String)
        ensures
            m@ == auth_error_text(*self),
    {
        match self {
            AuthError::TokenParseError(m) => m.clone(),
            AuthError::TokenValidationError(m) => m.clone(),
            AuthError::MismatchedNonce => String::from_str(MISMATCHED_NONCE),
            AuthError::MismatchedState => String::from_str(MISMATCHED_STATE),
            AuthError::MissingIdTokenInResponse => String::from_str(MISSING_ID_TOKEN),
            AuthError::MissingStateInResponse => String::from_str(MISSING_STATE_IN_RESPONSE),
            AuthError::MissingStateInStorage => String::from_str(MISSING_STATE_IN_STORAGE),
            AuthError::MissingNonceInStorage => String::from_str(MISSING_NONCE_IN_STORAGE),
            AuthError::MissingTokenSigningKey => String::from_str(MISSING_SIGNING_KEY),
            AuthError::MalformedResponse => String::from_str(MALFORMED_RESPONSE),
            AuthError::Other(m) => m.clone(),
        }
    }
}

/// One `key=value` part of a URL fragment.
pub struct FragmentParam {
    pub key: Vec<char>,
    pub value: Vec<char>,
}

/// The key and value texts of fragment parts.
pub open spec fn params_view(ps: Seq<FragmentParam>) -> Seq<(Seq<char>, Seq<char>)> {
    Seq::new(ps.len(), |k: int| (ps[k].key@, ps[k].value@))
}

/// The key and value of one part of a fragment: the text before its first
/// `=`, and the text after it up to the next `=`; `None` without a `=`.
pub open spec fn fragment_param(section: Seq<char>) -> Option<(Seq<char>, Seq<char>)> {
    let parts = split_text(section, '=');
    if parts.len() >= 2 {
        Some((parts[0], parts[1]))
    } else {
        None
    }
}

/// The parts of a fragment, cut at every `&`, each read as a key and a
/// value; `None` when a part has no `=`.
pub open spec fn fragment_params(fragment: Seq<char>) -> Option<Seq<(Seq<char>, Seq<char>)>> {
    let sections = split_text(fragment, '&');
    if forall|k: int| 0 <= k < sections.len() ==> (#[trigger] fragment_param(sections[k])) is Some {
        Some(Seq::new(sections.len(), |k: int| fragment_param(sections[k])->0))
    } else {
        None
    }
}

/// Reads the `key=value` parts of a URL fragment.
pub fn parse_fragment(fragment: &str) -> (r: Option<Vec<FragmentParam>>)
    ensures
        match r {
            Some(ps) => fragment_params(fragment@) == Some(params_view(ps@)),
            None => fragment_params(fragment@) is None,
        },
{
    let chars = chars_of(fragment);
    let sections = split_chars(&chars, '&');
    let ghost sv = split_text(fragment@, '&');
    let mut params: Vec<FragmentParam> = Vec::new();
    let mut k: usize = 0;
    while k < sections.len()
        invariant
            sections.deep_view() == sv,
            sv == split_text(fragment@, '&'),
            k <= sections.len(),
            params.len() == k,
            forall|j: int| 0 <= j < k ==> (#[trigger] fragment_param(sv[j])) is Some,
            forall|j: int|
                0 <= j < k ==> (fragment_param(sv[j])->0).0 == (#[trigger] params@[j]).key@ && (
                fragment_param(sv[j])->0).1 == params@[j].value@,
        decreases sections.len() - k,
    {
        proof {
            assert(sections.deep_view()[k as int] == sections@[k as int]@);
        }
        let parts = split_chars(&sections[k], '=');
        if parts.len() < 2 {
            proof {
                assert(parts.deep_view().len() == parts.len());
                assert(!(fragment_param(sv[k as int]) is Some));
            }
            return None;
        }
        proof {
            assert(parts.deep_view()[0] == parts@[0]@);
            assert(parts.deep_view()[1] == parts@[1]@);
        }
        let key = parts[0].clone();
        let value = parts[1].clone();
        params.push(FragmentParam { key, value });
        k = k + 1;
    }
    proof {
        assert(params_view(params@) =~= Seq::new(sv.len(), |j: int| fragment_param(sv[j])->0));
    }
    Some(params)
}

/// The value of the first part whose key is `key`.
pub open spec fn first_value(ps: Seq<(Seq<char>, Seq<char>)>, key: Seq<char>) -> Option<Seq<char>>
    decreases ps.len(),
{
    if ps.len() == 0 {
        None
    } else if ps[0].0 == key {
        Some(ps[0].1)
    } else {
        first_value(ps.drop_first(), key)
    }
}

proof fn lemma_first_value_skip(ps: Seq<(Seq<char>, Seq<char>)>, key: Seq<char>, k: int)
    requires
        0 <= k <= ps.len(),
        forall|j: int| 0 <= j < k ==> (#[trigger] ps[j]).0 != key,
    ensures
        first_value(ps, key) == first_value(ps.skip(k), key),
    decreases k,
{
    if k > 0 {
        assert(ps[0].0 != key);
        assert forall|j: int| 0 <= j < k - 1 implies (#[trigger] ps.drop_first()[j]).0 != key by {
            assert(ps.drop_first()[j] == ps[j + 1]);
        }
        lemma_first_value_skip(ps.drop_first(), key, k - 1);
        assert(ps.drop_first().skip(k - 1) =~= ps.skip(k));
    } else {
        assert(ps.skip(0) =~= ps);
    }
}

/// The value of the first part of `params` whose key is `key`.
pub fn find_value(params: &Vec<FragmentParam>, key: &str) -> (r: Option<Vec<char>>)
    ensures
        match r {
            Some(v) => first_value(params_view(params@), key@) == Some(v@),
            None => first_value(params_view(params@), key@) is None,
        },
{
    let key_chars = chars_of(key);
    let ghost ps = params_view(params@);
    let mut k: usize = 0;
    while k < params.len()
        invariant
            ps == params_view(params@),
            key_chars@ == key@,
            k <= params.len(),
            forall|j: int| 0 <= j < k ==> (#[trigger] ps[j]).0 != key@,
        decreases params.len() - k,
    {
        if same_chars(&params[k].key, &key_chars) {
            proof {
                lemma_first_value_skip(ps, key@, k as int);
                assert(ps.skip(k as int)[0] == ps[k as int]);
            }
            return Some(params[k].value.clone());
        }
        k = k + 1;
    }
    proof {
        lemma_first_value_skip(ps, key@, k as int);
        assert(ps.skip(k as int).len() == 0);
    }
    None
}

fn same_chars(a: &Vec<char>, b: &Vec<char>) -> (r: bool)
    ensures
        r == (a@ == b@),
{
    if a.len() != b.len() {
        return false;
    }
    let mut i: usize = 0;
    while i < a.len()
        invariant
            a.len() == b.len(),
            i <= a.len(),
            forall|j: int| 0 <= j < i ==> a@[j] == b@[j],
        decreases a.len() - i,
    {
        if a[i] != b[i] {
            return false;
        }
        i = i + 1;
    }
    proof {
        assert(a@ =~= b@);
    }
    true
}

/// What the sign-in redirect's fragment holds: nothing to do for no or an
/// empty fragment; its parts otherwise.
pub open spec fn redirect_params(fragment: Option<Seq<char>>) -> Result<Option<Seq<(Seq<char>, Seq<char>)>>, ()> {
    match fragment {
        None => Ok(None),
        Some(f) => if f.len() == 0 {
            Ok(None)
        } else {
            match fragment_params(f) {
                Some(ps) => Ok(Some(ps)),
                None => Err(()),
            }
        },
    }
}

/// Reads the fragment of the page the sign-in provider redirected to:
/// `Ok(None)` when there is none or it is empty, so that there is no sign-in
/// to finish; its parts otherwise.
pub fn read_redirect_fragment(fragment: Option<&str>) -> (r: Result<Option<Vec<FragmentParam>>, AuthError>)
    ensures
        match fragment {
            None => r matches Ok(None),
            Some(f) => match redirect_params(Some(f@)) {
                Ok(None) => r matches Ok(None),
                Ok(Some(ps)) => r matches Ok(Some(v)) && params_view(v@) == ps,
                Err(_) => r matches Err(AuthError::MalformedResponse),
            },
        },
{
    match fragment {
        None => Ok(None),
        Some(f) => {
            if f.unicode_len() == 0 {
                return Ok(None);
            }
            match parse_fragment(f) {
                Some(ps) => Ok(Some(ps)),
                None => Err(AuthError::MalformedResponse),
            }
        },
    }
}

/// Checks the state that the provider sent back against the one stored when
/// sign-in began: it must be in the response, stored, and the same.
pub fn check_state(params: &Vec<FragmentParam>, stored_state: Option<String>) -> (r: Result<(), AuthError>)
    ensures
        match first_value(params_view(params@), STATE_KEY@) {
            None => r matches Err(AuthError::MissingStateInResponse),
            Some(state) => match stored_state {
                None => r matches Err(AuthError::MissingStateInStorage),
                Some(stored) => if state == stored@ {
                    r is Ok
                } else {
                    r matches Err(AuthError::MismatchedState)
                },
            },
        },
{
    match find_value(params, STATE_KEY) {
        None => Err(AuthError::MissingStateInResponse),
        Some(state) => match stored_state {
            None => Err(AuthError::MissingStateInStorage),
            Some(stored) => {
                let stored_chars = chars_of(stored.as_str());
                if same_chars(&state, &stored_chars) {
                    Ok(())
                } else {
                    Err(AuthError::MismatchedState)
                }
            },
        },
    }
}

/// The identity token that the provider sent back.
pub fn id_token_of(params: &Vec<FragmentParam>) -> (r: Result<Vec<char>, AuthError>)
    ensures
        match first_value(params_view(params@), ID_TOKEN_KEY@) {
            None => r matches Err(AuthError::MissingIdTokenInResponse),
            Some(token) => r matches Ok(t) && t@ == token,
        },
{
    match find_value(params, ID_TOKEN_KEY) {
        None => Err(AuthError::MissingIdTokenInResponse),
        Some(token) => Ok(token),
    }
}

/// Checks the nonce in the identity token against the one stored when
/// sign-in began: it must be stored and the same.
pub fn check_nonce(token_nonce: &str, stored_nonce: Option<String>) -> (r: Result<(), AuthError>)
    ensures
        match stored_nonce {
            None => r matches Err(AuthError::MissingNonceInStorage),
            Some(stored) => if token_nonce@ == stored@ {
                r is Ok
            } else {
                r matches Err(AuthError::MismatchedNonce)
            },
        },
{
    match stored_nonce {
        None => Err(AuthError::MissingNonceInStorage),
        Some(stored) => {
            if same_chars(&chars_of(token_nonce), &chars_of(stored.as_str())) {
                Ok(())
            } else {
                Err(AuthError::MismatchedNonce)
            }
        },
    }
}

/// Picks the key the identity token was signed with among the provider's
/// keys, given their ids: the first key, or, when the token names its key,
/// the first key with that id; `MissingTokenSigningKey` when there is none.
pub fn choose_signing_key(key_ids: &Vec<String>, token_key_id: Option<String>) -> (r: Result<usize, AuthError>)
    ensures
        match r {
            Ok(k) => {
                &&& k < key_ids.len()
                &&& match token_key_id {
                    None => k == 0,
                    Some(id) => {
                        &&& key_ids@[k as int]@ == id@
                        &&& forall|j: int| 0 <= j < k ==> key_ids@[j]@ != id@
                    },
                }
            },
            Err(e) => {
                &&& e matches AuthError::MissingTokenSigningKey
                &&& (key_ids.len() == 0 || (token_key_id matches Some(id) && forall|j: int|
                    0 <= j < key_ids.len() ==> key_ids@[j]@ != id@))
            },
        },
{
    if key_ids.len() == 0 {
        return Err(AuthError::MissingTokenSigningKey);
    }
    match token_key_id {
        None => Ok(0),
        Some(id) => {
            let mut k: usize = 0;
            while k < key_ids.len()
                invariant
                    token_key_id == Some(id),
                    k <= key_ids.len(),
                    forall|j: int| 0 <= j < k ==> key_ids@[j]@ != id@,
                decreases key_ids.len() - k,
            {
                if same_text(key_ids[k].as_str(), id.as_str()) {
                    return Ok(k);
                }
                k = k + 1;
            }
            Err(AuthError::MissingTokenSigningKey)
        },
    }
}

/// The sentences of the failures that come from the host's requests.
pub const SIGNING_KEYS_UNAVAILABLE: &'static str = "error getting signing keys";
pub const USER_NOT_CREATED: &'static str = "failed to create a user";

/// What the identity token says, once its signature held.
pub struct TokenClaims {
    pub nonce: String,
    pub picture: String,
}

/// A user as the planner's server knows them.
pub struct UserProfile {
    pub name: String,
    pub email: String,
}

/// How far finishing a sign-in has come.
pub enum RedirectStage {
    /// Waiting for the redirect's fragment.
    Start,
    /// The response checked out; the provider's signing keys are awaited.
    /// Holds the identity token.
    FetchingKeys(Vec<char>),
    /// The token is being read; holds the ids of the provider's keys.
    ParsingToken(Vec<String>),
    /// The token's signature is being checked.
    ValidatingToken,
    /// The signed-in user is being fetched; holds the token's picture.
    FetchingUser(String),
    /// The user is being created; holds the token's picture.
    CreatingUser(String),
    /// The sign-in is finished, one way or the other.
    Done,
}

/// What the host hands back while a sign-in is finished.
pub enum RedirectEvent {
    /// The page's URL fragment, if any, and the state stored when sign-in
    /// began, if any.
    Redirected(Option<String>, Option<String>),
    /// The ids of the provider's signing keys, in order, or `None` when
    /// they could not be fetched.
    SigningKeysFetched(Option<Vec<String>>),
    /// The id of the key that the token's header names, if any, or why the
    /// token could not be read.
    TokenParsed(Result<Option<String>, String>),
    /// The token's claims once its signature held, or why it did not; and
    /// the nonce stored when sign-in began, if any.
    TokenValidated(Result<TokenClaims, String>, Option<String>),
    /// The signed-in user, or `None` when fetching failed.
    MeFetched(Option<UserProfile>),
    /// The created user, or `None` when creating failed.
    UserCreated(Option<UserProfile>),
}

/// What the host is to do next while a sign-in is finished.
pub enum RedirectAction {
    /// Fetch the provider's signing keys.
    FetchSigningKeys,
    /// Store the identity token and read it.
    ParseToken(Vec<char>),
    /// Check the token's signature with the provider's key at this index.
    ValidateToken(usize),
    /// Fetch the signed-in user with the stored token.
    FetchMe,
    /// Create the user from the token's claims.
    CreateUser,
    /// The sign-in is finished: the user it signed in, none when there was
    /// no sign-in to finish, or the first check that failed.
    Finish(Result<Option<UserInfo>, AuthError>),
    /// The event does not belong to this stage; nothing changes.
    Ignore,
}

/// The text of an optional string.
pub open spec fn opt_text(o: Option<String>) -> Option<Seq<char>> {
    match o {
        Some(t) => Some(t@),
        None => None,
    }
}

/// `action` finishes with the user `name`, `email` and `picture`.
pub open spec fn finishes_with_user(action: RedirectAction, name: Seq<char>, email: Seq<char>, picture: Seq<char>) -> bool {
    action matches RedirectAction::Finish(Ok(Some(u))) && u@ == (UserInfoView {
        email,
        picture,
        name,
    })
}

/// What taking `event` at `stage` leads to: the next stage and action.
/// The checks run in the order of the sign-in: the fragment, the state, the
/// identity token, the signing keys, reading the token, the signing key,
/// the signature, the nonce, then fetching or creating the user.
pub open spec fn redirect_step(
    stage: RedirectStage,
    event: RedirectEvent,
    next: RedirectStage,
    action: RedirectAction,
) -> bool {
    match (stage, event) {
        (RedirectStage::Start, RedirectEvent::Redirected(fragment, stored)) => match redirect_params(
            opt_text(fragment),
        ) {
            Ok(None) => next is Done && action matches RedirectAction::Finish(Ok(None)),
            Err(_) => next is Done && action matches RedirectAction::Finish(
                Err(AuthError::MalformedResponse),
            ),
            Ok(Some(ps)) => match first_value(ps, STATE_KEY@) {
                None => next is Done && action matches RedirectAction::Finish(
                    Err(AuthError::MissingStateInResponse),
                ),
                Some(state) => match stored {
                    None => next is Done && action matches RedirectAction::Finish(
                        Err(AuthError::MissingStateInStorage),
                    ),
                    Some(st) => if state != st@ {
                        next is Done && action matches RedirectAction::Finish(
                            Err(AuthError::MismatchedState),
                        )
                    } else {
                        match first_value(ps, ID_TOKEN_KEY@) {
                            None => next is Done && action matches RedirectAction::Finish(
                                Err(AuthError::MissingIdTokenInResponse),
                            ),
                            Some(token) => action is FetchSigningKeys && (next matches RedirectStage::FetchingKeys(t)
                                && t@ == token),
                        }
                    },
                },
            },
        },
        (RedirectStage::FetchingKeys(token), RedirectEvent::SigningKeysFetched(keys)) => match keys {
            None => next is Done && (action matches RedirectAction::Finish(Err(AuthError::Other(m)))
                && m@ == SIGNING_KEYS_UNAVAILABLE@),
            Some(ids) => (action matches RedirectAction::ParseToken(t) && t@ == token@) && (next matches RedirectStage::ParsingToken(v)
                && v@ == ids@),
        },
        (RedirectStage::ParsingToken(ids), RedirectEvent::TokenParsed(parsed)) => match parsed {
            Err(m) => next is Done && (action matches RedirectAction::Finish(
                Err(AuthError::TokenParseError(w)),
            ) && w@ == m@),
            Ok(key_id) => if ids.len() > 0 && match key_id {
                None => true,
                Some(id) => exists|j: int| 0 <= j < ids.len() && ids@[j]@ == id@,
            } {
                &&& next is ValidatingToken
                &&& action matches RedirectAction::ValidateToken(k) && k < ids.len() && match key_id {
                    None => k == 0,
                    Some(id) => ids@[k as int]@ == id@ && forall|j: int| 0 <= j < k ==> ids@[j]@ != id@,
                }
            } else {
                next is Done && action matches RedirectAction::Finish(
                    Err(AuthError::MissingTokenSigningKey),
                )
            },
        },
        (RedirectStage::ValidatingToken, RedirectEvent::TokenValidated(validated, stored)) => match validated {
            Err(m) => next is Done && (action matches RedirectAction::Finish(
                Err(AuthError::TokenValidationError(w)),
            ) && w@ == m@),
            Ok(claims) => match stored {
                None => next is Done && action matches RedirectAction::Finish(
                    Err(AuthError::MissingNonceInStorage),
                ),
                Some(n) => if claims.nonce@ == n@ {
                    action is FetchMe && (next matches RedirectStage::FetchingUser(p) && p@
                        == claims.picture@)
                } else {
                    next is Done && action matches RedirectAction::Finish(
                        Err(AuthError::MismatchedNonce),
                    )
                },
            },
        },
        (RedirectStage::FetchingUser(picture), RedirectEvent::MeFetched(me)) => match me {
            Some(u) => next is Done && finishes_with_user(action, u.name@, u.email@, picture@),
            None => action is CreateUser && (next matches RedirectStage::CreatingUser(p) && p@
                == picture@),
        },
        (RedirectStage::CreatingUser(picture), RedirectEvent::UserCreated(created)) => match created {
            Some(u) => next is Done && finishes_with_user(action, u.name@, u.email@, picture@),
            None => next is Done && (action matches RedirectAction::Finish(Err(AuthError::Other(m)))
                && m@ == USER_NOT_CREATED@),
        },
        (stage, _) => action is Ignore && next == stage,
    }
}

/// Finishing the sign-in that the provider's redirect carries, one step of
/// the host's work at a time.
pub struct AuthRedirect {
    pub stage: RedirectStage,
}

impl AuthRedirect {
    /// Waiting for the redirect's fragment.
    pub fn new() -> (r: AuthRedirect)
        ensures
            r.stage is Start,
    {
        AuthRedirect { stage: RedirectStage::Start }
    }

    /// Takes what the host hands back and gives what it is to do next.
    pub fn step(&mut self, event: RedirectEvent) -> (action: RedirectAction)
        ensures
            redirect_step(old(self).stage, event, final(self).stage, action),
    {
        let mut stage = RedirectStage::Done;
        std::mem::swap(&mut stage, &mut self.stage);
        let (next, action) = redirect_transition(stage, event);
        self.stage = next;
        action
    }
}

/// The next stage and action for `event` at `stage`.
fn redirect_transition(stage: RedirectStage, event: RedirectEvent) -> (r: (RedirectStage, RedirectAction))
    ensures
        redirect_step(stage, event, r.0, r.1),
{
    match (stage, event) {
        (RedirectStage::Start, RedirectEvent::Redirected(fragment, stored)) => {
            let f = match &fragment {
                Some(t) => Some(t.as_str()),
                None => None,
            };
            match read_redirect_fragment(f) {
                Ok(None) => (RedirectStage::Done, RedirectAction::Finish(Ok(None))),
                Err(e) => (RedirectStage::Done, RedirectAction::Finish(Err(e))),
                Ok(Some(params)) => match check_state(&params, stored) {
                    Err(e) => (RedirectStage::Done, RedirectAction::Finish(Err(e))),
                    Ok(()) => match id_token_of(&params) {
                        Err(e) => (RedirectStage::Done, RedirectAction::Finish(Err(e))),
                        Ok(token) => (RedirectStage::FetchingKeys(token), RedirectAction::FetchSigningKeys),
                    },
                },
            }
        },
        (RedirectStage::FetchingKeys(token), RedirectEvent::SigningKeysFetched(keys)) => match keys {
            None => (
                RedirectStage::Done,
                RedirectAction::Finish(Err(AuthError::Other(String::from_str(SIGNING_KEYS_UNAVAILABLE)))),
            ),
            Some(ids) => (RedirectStage::ParsingToken(ids), RedirectAction::ParseToken(token)),
        },
        (RedirectStage::ParsingToken(ids), RedirectEvent::TokenParsed(parsed)) => match parsed {
            Err(m) => (RedirectStage::Done, RedirectAction::Finish(Err(AuthError::TokenParseError(m)))),
            Ok(key_id) => {
                let ghost kid = key_id;
                match choose_signing_key(&ids, key_id) {
                    Ok(k) => (RedirectStage::ValidatingToken, RedirectAction::ValidateToken(k)),
                    Err(e) => {
                        proof {
                            if kid is Some && ids.len() > 0 {
                                let id = kid->0;
                                assert(!(exists|j: int| 0 <= j < ids.len() && ids@[j]@ == id@));
                            }
                        }
                        (RedirectStage::Done, RedirectAction::Finish(Err(e)))
                    },
                }
            },
        },
        (RedirectStage::ValidatingToken, RedirectEvent::TokenValidated(validated, stored)) => match validated {
            Err(m) => (RedirectStage::Done, RedirectAction::Finish(Err(AuthError::TokenValidationError(m)))),
            Ok(claims) => match check_nonce(claims.nonce.as_str(), stored) {
                Ok(()) => (RedirectStage::FetchingUser(claims.picture), RedirectAction::FetchMe),
                Err(e) => (RedirectStage::Done, RedirectAction::Finish(Err(e))),
            },
        },
        (RedirectStage::FetchingUser(picture), RedirectEvent::MeFetched(me)) => match me {
            Some(u) => (
                RedirectStage::Done,
                RedirectAction::Finish(Ok(Some(UserInfo { email: u.email, picture, name: u.name }))),
            ),
            None => (RedirectStage::CreatingUser(picture), RedirectAction::CreateUser),
        },
        (RedirectStage::CreatingUser(picture), RedirectEvent::UserCreated(created)) => match created {
            Some(u) => (
                RedirectStage::Done,
                RedirectAction::Finish(Ok(Some(UserInfo { email: u.email, picture, name: u.name }))),
            ),
            None => (
                RedirectStage::Done,
                RedirectAction::Finish(Err(AuthError::Other(String::from_str(USER_NOT_CREATED)))),
            ),
        },
        (stage, _) => (stage, RedirectAction::Ignore),
    }
}

} // verus!
