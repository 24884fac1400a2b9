//! Token exchange: what is sent to the token endpoint, how its answer is
//! read, and when a credential is due for renewal.

use vstd::prelude::*;
use crate::config::{Token, TokenModel};
use crate::error::{is_success, status_is_success, AuthFailure, AuthFailureModel, ErrorModel, TeslaError};
use crate::web::{pair_of, Pair, PairModel};

verus! {

/// The token endpoint's answer: the token pair and the number of seconds
/// for which the access token is good, counted from the answer.
#[derive(Debug, Clone, PartialEq, Eq)]
pub struct OAuthToken {
    pub access_token: String,
    pub refresh_token: String,
    pub expires_in: u64,
}

/// What an `OAuthToken` holds, as a mathematical value.
pub struct OAuthTokenModel {
    pub access_token: Seq<char>,
    pub refresh_token: Seq<char>,
    pub expires_in: u64,
}

impl View for OAuthToken {
    type V = OAuthTokenModel;

    open spec fn view(&self) -> OAuthTokenModel {
        OAuthTokenModel {
            access_token: self.access_token@,
            refresh_token: self.refresh_token@,
            expires_in: self.expires_in,
        }
    }
}

/// The text that a JSON document gives the member `name` of its top-level
/// object; `None` where the text is no JSON, is no object, has no such
/// member, or the member is no string.
pub uninterp spec fn json_text_member(body: Seq<char>, name: Seq<char>) -> Option<Seq<char>>;

/// The number that a JSON document gives the member `name` of its
/// top-level object; `None` where the text is no JSON, is no object, has no
/// such member, or the member is no integer from 0 to 2^64 - 1.
pub uninterp spec fn json_number_member(body: Seq<char>, name: Seq<char>) -> Option<u64>;

/// `serde_json::from_str` to a `Value`, then `Value::get` and
/// `Value::as_str`. The result depends on the arguments alone; nothing
/// more is claimed of it.
#[verifier::external_body]
fn json_text(body: &str, name: &str) -> (member: Option<String>)
    ensures
        member.deep_view() == json_text_member(body@, name@),
{
    serde_json::from_str::<serde_json::Value>(body).ok().and_then(
        |v| v.get(name).and_then(|m| m.as_str()).map(str::to_owned),
    )
}

/// `serde_json::from_str` to a `Value`, then `Value::get` and
/// `Value::as_u64`. The result depends on the arguments alone; nothing
/// more is claimed of it.
#[verifier::external_body]
fn json_number(body: &str, name: &str) -> (member: Option<u64>)
    ensures
        member == json_number_member(body@, name@),
{
    serde_json::from_str::<serde_json::Value>(body).ok().and_then(
        |v| v.get(name).and_then(|m| m.as_u64()),
    )
}

/// The token that three members make, where all three are there.
pub open spec fn token_of_members(
    access_token: Option<Seq<char>>,
    refresh_token: Option<Seq<char>>,
    expires_in: Option<u64>,
) -> Option<OAuthTokenModel> {
    if access_token is Some && refresh_token is Some && expires_in is Some {
        Some(
            OAuthTokenModel {
                access_token: access_token->0,
                refresh_token: refresh_token->0,
                expires_in: expires_in->0,
            },
        )
    } else {
        None
    }
}

/// The token that a JSON payload holds: its members `access_token`,
/// `refresh_token` and `expires_in`.
pub open spec fn token_of_payload(body: Seq<char>) -> Option<OAuthTokenModel> {
    token_of_members(
        json_text_member(body, "access_token"@),
        json_text_member(body, "refresh_token"@),
        json_number_member(body, "expires_in"@),
    )
}

/// What the token endpoint's answer means: the token of a successful
/// answer, a refusal that keeps the body of any other.
pub open spec fn token_response(status: u16, body: Seq<char>) -> Result<
    OAuthTokenModel,
    ErrorModel,
> {
    if !is_success(status) {
        Err(ErrorModel::AuthError(AuthFailureModel::Rejected(body)))
    } else {
        match token_of_payload(body) {
            Some(token) => Ok(token),
            None => Err(ErrorModel::AuthError(AuthFailureModel::MalformedToken)),
        }
    }
}

/// Puts a token together from the three members of a payload; all three
/// must be there.
pub fn token_from_members(
    access_token: Option<String>,
    refresh_token: Option<String>,
    expires_in: Option<u64>,
) -> (token: Option<OAuthToken>)
    ensures
        match token {
            Some(t) => token_of_members(
                access_token.deep_view(),
                refresh_token.deep_view(),
                expires_in,
            ) == Some(t@),
            None => token_of_members(
                access_token.deep_view(),
                refresh_token.deep_view(),
                expires_in,
            ) is None,
        },
{
    match (access_token, refresh_token, expires_in) {
        (Some(access_token), Some(refresh_token), Some(expires_in)) => Some(
            OAuthToken { access_token, refresh_token, expires_in },
        ),
        _ => None,
    }
}

/// Reads the token endpoint's answer. A successful status with a complete
/// payload gives the token; a successful status with anything else is a
/// malformed token; any other status is a refusal, and the body is kept
/// for diagnosis.
pub fn parse_oauth_token(status: u16, body: &str) -> (parsed: Result<OAuthToken, TeslaError>)
    ensures
        match parsed {
            Ok(token) => token_response(status, body@) == Ok::<OAuthTokenModel, ErrorModel>(
                token@,
            ),
            Err(e) => token_response(status, body@) == Err::<OAuthTokenModel, ErrorModel>(e@),
        },
{
    if !status_is_success(status) {
        return Err(TeslaError::AuthError(AuthFailure::Rejected(body.to_owned())));
    }
    let access_token = json_text(body, "access_token");
    let refresh_token = json_text(body, "refresh_token");
    let expires_in = json_number(body, "expires_in");
    match token_from_members(access_token, refresh_token, expires_in) {
        Some(token) => Ok(token),
        None => Err(TeslaError::AuthError(AuthFailure::MalformedToken)),
    }
}

/// What is sent to renew a credential.
pub open spec fn refresh_query(refresh_token: Seq<char>) -> Seq<PairModel> {
    seq![
        ("grant_type"@, "refresh_token"@),
        ("client_id"@, "ownerapi"@),
        ("scope"@, "openid email offline_access"@),
        ("refresh_token"@, refresh_token),
    ]
}

/// What is sent to exchange an authorization code for a credential.
pub open spec fn exchange_query(code: Seq<char>, verifier: Seq<char>) -> Seq<PairModel> {
    seq![
        ("grant_type"@, "authorization_code"@),
        ("client_id"@, "ownerapi"@),
        ("code"@, code),
        ("code_verifier"@, verifier),
        ("redirect_uri"@, "https://auth.tesla.com/void/callback"@),
    ]
}

/// The members of the request that renews a credential.
pub fn refresh_params(refresh_token: &str) -> (params: Vec<Pair>)
    ensures
        params.deep_view() == refresh_query(refresh_token@),
{
    let mut params: Vec<Pair> = Vec::new();
    params.push(pair_of("grant_type", "refresh_token"));
    params.push(pair_of("client_id", "ownerapi"));
    params.push(pair_of("scope", "openid email offline_access"));
    params.push(pair_of("refresh_token", refresh_token));
    assert(params.deep_view() =~= refresh_query(refresh_token@));
    params
}

/// The members of the request that exchanges an authorization code.
pub fn exchange_params(code: &str, verifier: &str) -> (params: Vec<Pair>)
    ensures
        params.deep_view() == exchange_query(code@, verifier@),
{
    let mut params: Vec<Pair> = Vec::new();
    params.push(pair_of("grant_type", "authorization_code"));
    params.push(pair_of("client_id", "ownerapi"));
    params.push(pair_of("code", code));
    params.push(pair_of("code_verifier", verifier));
    params.push(pair_of("redirect_uri", "https://auth.tesla.com/void/callback"));
    assert(params.deep_view() =~= exchange_query(code@, verifier@));
    params
}

impl OAuthToken {
    /// The whole days for which the access token is good.
    pub fn expires_in_days(&self) -> (days: u64)
        ensures
            days == self.expires_in / 86400,
    {
        self.expires_in / 60 / 60 / 24
    }
}

impl Token {
    /// The credential that a token received at time `now` makes: it
    /// expires `expires_in` seconds after `now`. The expiry is always
    /// computed here, never taken from the provider. A time that does not
    /// fit the clock is refused.
    pub fn from_oauth(token: OAuthToken, now: u64) -> (made: Result<Token, TeslaError>)
        ensures
            now + token.expires_in <= u64::MAX ==> made == Ok::<Token, TeslaError>(
                Token {
                    access_token: token.access_token,
                    refresh_token: token.refresh_token,
                    expires_ts: (now + token.expires_in) as u64,
                },
            ),
            now + token.expires_in > u64::MAX ==> made is Err && made->Err_0 is SystemError,
    {
        match now.checked_add(token.expires_in) {
            Some(expires_ts) => Ok(
                Token {
                    access_token: token.access_token,
                    refresh_token: token.refresh_token,
                    expires_ts,
                },
            ),
            None => Err(TeslaError::SystemError),
        }
    }

    /// Whether the credential has expired at time `now`.
    pub open spec fn is_stale(&self, now: u64) -> bool {
        now >= self.expires_ts
    }

    /// Whether the credential has expired at time `now` and must be
    /// renewed before it is used.
    pub fn needs_refresh(&self, now: u64) -> (stale: bool)
        ensures
            stale == self.is_stale(now),
    {
        now >= self.expires_ts
    }
}

/// What is to be done with the credential before a protected call.
#[derive(Debug, Clone, PartialEq, Eq)]
pub enum RefreshAction {
    /// The credential is good: go on with it.
    PassThrough,
    /// The credential is stale: send these members to the token endpoint
    /// and put the answer in the credential's place.
    Exchange(Vec<Pair>),
}

/// The check before each protected call: a fresh credential passes
/// through untouched, a stale one is exchanged with its refresh token.
pub fn refresh_check(token: &Token, now: u64) -> (action: RefreshAction)
    ensures
        match action {
            RefreshAction::PassThrough => !token.is_stale(now),
            RefreshAction::Exchange(params) => token.is_stale(now) && params.deep_view()
                == refresh_query(token.refresh_token@),
        },
{
    if token.needs_refresh(now) {
        RefreshAction::Exchange(refresh_params(token.refresh_token.as_str()))
    } else {
        RefreshAction::PassThrough
    }
}

/// Ends a renewal: reads the token endpoint's answer, received at time
/// `now`, into the credential that takes the old one's place, both tokens
/// new.
pub fn renewed_token(status: u16, body: &str, now: u64) -> (renewed: Result<Token, TeslaError>)
    ensures
        match renewed {
            Ok(token) => token_response(status, body@) is Ok && token@ == credential_of(
                token_response(status, body@)->Ok_0,
                now,
            ) && now + token_response(status, body@)->Ok_0.expires_in <= u64::MAX,
            Err(e) => match token_response(status, body@) {
                Ok(answer) => now + answer.expires_in > u64::MAX && e@ == ErrorModel::SystemError,
                Err(why) => e@ == why,
            },
        },
{
    match parse_oauth_token(status, body) {
        Ok(answer) => Token::from_oauth(answer, now),
        Err(e) => Err(e),
    }
}

/// The credential that an answer received at time `now` makes.
pub open spec fn credential_of(answer: OAuthTokenModel, now: u64) -> TokenModel {
    TokenModel {
        access_token: answer.access_token,
        refresh_token: answer.refresh_token,
        expires_ts: (now + answer.expires_in) as u64,
    }
}

/// The number of exchanges that the check asks for: one for a stale
/// credential, none for a fresh one.
pub open spec fn refresh_exchanges(token: TokenModel, now: u64) -> nat {
    if now >= token.expires_ts {
        1
    } else {
        0
    }
}

/// The credential that is at hand after the check, where the token
/// endpoint would give `answer`.
pub open spec fn refresh_result(token: TokenModel, now: u64, answer: OAuthTokenModel) -> TokenModel {
    if now >= token.expires_ts {
        credential_of(answer, now)
    } else {
        token
    }
}

/// The check is idempotent: on a fresh credential it changes nothing and
/// exchanges nothing, and two passes in immediate succession make at most
/// one exchange between them, given that the provider's token is good for
/// at least a second.
pub proof fn lemma_refresh_check_idempotent(token: TokenModel, now: u64, answer: OAuthTokenModel)
    requires
        answer.expires_in > 0,
        now + answer.expires_in <= u64::MAX,
    ensures
        now < token.expires_ts ==> refresh_exchanges(token, now) == 0 && refresh_result(
            token,
            now,
            answer,
        ) == token,
        refresh_exchanges(refresh_result(token, now, answer), now) == 0,
        refresh_result(refresh_result(token, now, answer), now, answer) == refresh_result(
            token,
            now,
            answer,
        ),
        refresh_exchanges(token, now) + refresh_exchanges(refresh_result(token, now, answer), now) <= 1,
{
}

} // verus!
