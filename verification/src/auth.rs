//! Signing in: the address of the login page, and the rounds of form
//! submission that end with an authorization code.

use vstd::prelude::*;
use crate::error::{
    is_redirection, status_is_redirection, AuthFailure, AuthFailureModel, ErrorModel, TeslaError,
};
use crate::form::{
    hidden_complete, hidden_map, login_form, page_hidden_inputs, with_credentials, Form,
};
use crate::pkce::PkceChallenge;
use crate::web::{
    is_callback_url, pair_of, query_parameter, query_value, targets_callback, url_with_query,
    url_with_query_text, Pair, PairModel,
};

verus! {

/// The number of times a login form is submitted before the sign-in is
/// given up.
pub const MAX_LOGIN_ROUNDS: u32 = 10;

/// Where the identity provider is found.
#[derive(Debug, Clone, PartialEq, Eq)]
pub struct Endpoints {
    /// The address of the login page.
    pub authorize: String,
    /// The address at which codes and refresh tokens are exchanged.
    pub token: String,
}

impl Endpoints {
    /// The provider's own addresses.
    pub fn standard() -> (endpoints: Endpoints)
        ensures
            endpoints.authorize@ == "https://auth.tesla.cn/oauth2/v3/authorize"@,
            endpoints.token@ == "https://auth.tesla.cn/oauth2/v3/token"@,
    {
        Endpoints {
            authorize: "https://auth.tesla.cn/oauth2/v3/authorize".to_owned(),
            token: "https://auth.tesla.cn/oauth2/v3/token".to_owned(),
        }
    }
}

/// The parameters that every request to the login page carries.
pub open spec fn authorize_query(challenge: Seq<char>, state: Seq<char>) -> Seq<PairModel> {
    seq![
        ("client_id"@, "ownerapi"@),
        ("code_challenge"@, challenge),
        ("code_challenge_method"@, "S256"@),
        ("redirect_uri"@, "https://auth.tesla.com/void/callback"@),
        ("response_type"@, "code"@),
        ("scope"@, "openid email offline_access"@),
        ("state"@, state),
    ]
}

/// The parameters of the request that fetches the login page: those of
/// every request, and the user's address as a hint.
pub open spec fn login_page_query(challenge: Seq<char>, state: Seq<char>, email: Seq<char>) -> Seq<
    PairModel,
> {
    authorize_query(challenge, state).push(("login_hint"@, email))
}

/// The parameters that every request to the login page carries, for a
/// given proof key.
pub fn authorize_params(pkce: &PkceChallenge) -> (params: Vec<Pair>)
    ensures
        params.deep_view() == authorize_query(pkce.challenge@, pkce.state@),
{
    let mut params: Vec<Pair> = Vec::new();
    params.push(pair_of("client_id", "ownerapi"));
    params.push(pair_of("code_challenge", pkce.challenge.as_str()));
    params.push(pair_of("code_challenge_method", "S256"));
    params.push(pair_of("redirect_uri", "https://auth.tesla.com/void/callback"));
    params.push(pair_of("response_type", "code"));
    params.push(pair_of("scope", "openid email offline_access"));
    params.push(pair_of("state", pkce.state.as_str()));
    assert(params.deep_view() =~= authorize_query(pkce.challenge@, pkce.state@));
    params
}

/// The address from which the login page is fetched. An endpoint that is
/// no absolute URL is a fault of the configuration.
pub fn login_page_url(endpoint: &str, pkce: &PkceChallenge, email: &str) -> (url: Result<
    String,
    TeslaError,
>)
    ensures
        match url {
            Ok(u) => url_with_query_text(
                endpoint@,
                login_page_query(pkce.challenge@, pkce.state@, email@),
            ) == Some(u@),
            Err(e) => url_with_query_text(
                endpoint@,
                login_page_query(pkce.challenge@, pkce.state@, email@),
            ) is None && e@ == ErrorModel::SystemError,
        },
{
    let mut params = authorize_params(pkce);
    params.push(pair_of("login_hint", email));
    assert(params.deep_view() =~= login_page_query(pkce.challenge@, pkce.state@, email@));
    match url_with_query(endpoint, &params) {
        Some(u) => Ok(u),
        None => Err(TeslaError::SystemError),
    }
}

/// The address to which the login form is first submitted. An endpoint
/// that is no absolute URL is a fault of the configuration.
pub fn login_submit_url(endpoint: &str, pkce: &PkceChallenge) -> (url: Result<String, TeslaError>)
    ensures
        match url {
            Ok(u) => url_with_query_text(
                endpoint@,
                authorize_query(pkce.challenge@, pkce.state@),
            ) == Some(u@),
            Err(e) => url_with_query_text(
                endpoint@,
                authorize_query(pkce.challenge@, pkce.state@),
            ) is None && e@ == ErrorModel::SystemError,
        },
{
    let params = authorize_params(pkce);
    match url_with_query(endpoint, &params) {
        Some(u) => Ok(u),
        None => Err(TeslaError::SystemError),
    }
}

/// The provider's answer to a submitted form, once the client has followed
/// every redirect that does not lead to the callback.
#[derive(Debug, Clone, PartialEq, Eq)]
pub struct PostResponse {
    pub status: u16,
    /// The `Location` header, if there is one.
    pub location: Option<String>,
    /// The address that gave the answer.
    pub url: String,
    pub body: String,
}

/// What a `PostResponse` holds, as a mathematical value.
pub struct PostResponseModel {
    pub status: u16,
    pub location: Option<Seq<char>>,
    pub url: Seq<char>,
    pub body: Seq<char>,
}

impl View for PostResponse {
    type V = PostResponseModel;

    open spec fn view(&self) -> PostResponseModel {
        PostResponseModel {
            status: self.status,
            location: self.location.deep_view(),
            url: self.url@,
            body: self.body@,
        }
    }
}

/// Where a sign-in stands between two submissions: the page to answer, the
/// address to answer it at, and the number of submissions made.
#[derive(Debug, Clone, PartialEq, Eq)]
pub struct RedirectChase {
    pub url: String,
    pub body: String,
    pub round: u32,
    pub max_rounds: u32,
}

/// What a `RedirectChase` holds, as a mathematical value.
pub struct ChaseModel {
    pub url: Seq<char>,
    pub body: Seq<char>,
    pub round: nat,
    pub max_rounds: nat,
}

impl View for RedirectChase {
    type V = ChaseModel;

    open spec fn view(&self) -> ChaseModel {
        ChaseModel {
            url: self.url@,
            body: self.body@,
            round: self.round as nat,
            max_rounds: self.max_rounds as nat,
        }
    }
}

/// A form and the address to submit it to.
#[derive(Debug, Clone, PartialEq, Eq)]
pub struct Submission {
    pub url: String,
    pub form: Form,
}

/// What an answer means for the sign-in.
#[derive(Debug, Clone, PartialEq, Eq)]
pub enum ChaseStep {
    /// The provider redirected to the callback: this is the authorization
    /// code.
    Code(String),
    /// The sign-in failed.
    Failed(TeslaError),
    /// The provider answered with another page: submit again.
    Again,
}

/// What an answer means for the sign-in, as a mathematical value.
pub enum Verdict {
    Code(Seq<char>),
    Failed(ErrorModel),
    Again(ChaseModel),
}

/// The submission that a state asks for: none once the bound on rounds is
/// reached, none for a malformed page, else the page's hidden fields with
/// the credentials laid over them, for the state's address.
pub open spec fn submission_of(s: ChaseModel, email: Seq<char>, password: Seq<char>) -> Result<
    (Seq<char>, Map<Seq<char>, Seq<char>>),
    ErrorModel,
> {
    if s.round >= s.max_rounds {
        Err(ErrorModel::AuthError(AuthFailureModel::TooManyRounds))
    } else if !hidden_complete(page_hidden_inputs(s.body)) {
        Err(ErrorModel::AuthError(AuthFailureModel::MalformedPage))
    } else {
        Ok((s.url, with_credentials(hidden_map(page_hidden_inputs(s.body)), email, password)))
    }
}

/// The state after one more submission.
pub open spec fn submitted(s: ChaseModel) -> ChaseModel {
    ChaseModel { round: s.round + 1, ..s }
}

/// The rule by which an answer is judged. A redirect without a target is
/// a failure. A redirect to the callback ends the sign-in: with the code
/// that its target carries, or as a failure where it carries none. Every
/// other answer is the next page to fill in, at the address that gave it.
pub open spec fn verdict(s: ChaseModel, r: PostResponseModel) -> Verdict {
    if is_redirection(r.status) && r.location is None {
        Verdict::Failed(ErrorModel::AuthError(AuthFailureModel::MissingLocation))
    } else if is_redirection(r.status) && targets_callback(r.location->0) {
        match query_value(r.location->0, "code"@) {
            Some(code) => Verdict::Code(code),
            None => Verdict::Failed(ErrorModel::AuthError(AuthFailureModel::MissingCode)),
        }
    } else {
        Verdict::Again(ChaseModel { url: r.url, body: r.body, ..s })
    }
}

impl RedirectChase {
    /// No more submissions were made than the bound allows.
    pub open spec fn wf(&self) -> bool {
        self.round <= self.max_rounds
    }

    /// The state before the first submission: the login page as it was
    /// fetched, and the address to submit to.
    pub fn start(url: String, body: String, max_rounds: u32) -> (chase: RedirectChase)
        ensures
            chase.wf(),
            chase == (RedirectChase { url, body, round: 0, max_rounds }),
    {
        RedirectChase { url, body, round: 0, max_rounds }
    }

    /// The next form to submit, and where. Counts the submission. Fails,
    /// and counts nothing, once the bound on rounds is reached or where the
    /// page is malformed.
    pub fn next_submission(&mut self, email: &str, password: &str) -> (next: Result<
        Submission,
        TeslaError,
    >)
        requires
            old(self).wf(),
        ensures
            final(self).wf(),
            match next {
                Ok(submission) => submission_of(old(self)@, email@, password@) == Ok::<
                    (Seq<char>, Map<Seq<char>, Seq<char>>),
                    ErrorModel,
                >((submission.url@, submission.form@)) && submission.form.wf() && final(self)@
                    == submitted(old(self)@),
                Err(e) => submission_of(old(self)@, email@, password@) == Err::<
                    (Seq<char>, Map<Seq<char>, Seq<char>>),
                    ErrorModel,
                >(e@) && final(self)@ == old(self)@,
            },
    {
        if self.round >= self.max_rounds {
            return Err(TeslaError::AuthError(AuthFailure::TooManyRounds));
        }
        match login_form(self.body.as_str(), email, password) {
            Ok(form) => {
                self.round = self.round + 1;
                Ok(Submission { url: self.url.clone(), form })
            },
            Err(e) => Err(e),
        }
    }

    /// Judges the provider's answer to the last submission. Where it is
    /// another page, the state takes that page and its address.
    pub fn on_response(&mut self, response: PostResponse) -> (step: ChaseStep)
        requires
            old(self).wf(),
        ensures
            final(self).wf(),
            match step {
                ChaseStep::Code(code) => verdict(old(self)@, response@) == Verdict::Code(code@)
                    && final(self)@ == old(self)@,
                ChaseStep::Failed(e) => verdict(old(self)@, response@) == Verdict::Failed(e@)
                    && final(self)@ == old(self)@,
                ChaseStep::Again => verdict(old(self)@, response@) == Verdict::Again(final(self)@),
            },
    {
        if status_is_redirection(response.status) {
            match &response.location {
                None => {
                    return ChaseStep::Failed(TeslaError::AuthError(AuthFailure::MissingLocation));
                },
                Some(location) => {
                    if is_callback_url(location.as_str()) {
                        return match query_parameter(location.as_str(), "code") {
                            Some(code) => ChaseStep::Code(code),
                            None => ChaseStep::Failed(
                                TeslaError::AuthError(AuthFailure::MissingCode),
                            ),
                        };
                    }
                },
            }
        }
        self.url = response.url;
        self.body = response.body;
        ChaseStep::Again
    }
}

/// How far a sign-in got on a given run of answers.
pub struct ChaseRun {
    /// The number of forms submitted.
    pub posts: nat,
    /// The code or the failure with which it ended; `None` while it waits
    /// for an answer.
    pub end: Option<Result<Seq<char>, ErrorModel>>,
}

/// Runs the sign-in from a state against the answers that the provider
/// would give, one for each submission, in order.
pub open spec fn chase(
    s: ChaseModel,
    email: Seq<char>,
    password: Seq<char>,
    answers: Seq<PostResponseModel>,
) -> ChaseRun
    decreases answers.len(),
{
    if submission_of(s, email, password) is Err {
        ChaseRun { posts: 0, end: Some(Err(submission_of(s, email, password)->Err_0)) }
    } else if answers.len() == 0 {
        ChaseRun { posts: 1, end: None }
    } else {
        match verdict(submitted(s), answers[0]) {
            Verdict::Code(code) => ChaseRun { posts: 1, end: Some(Ok(code)) },
            Verdict::Failed(e) => ChaseRun { posts: 1, end: Some(Err(e)) },
            Verdict::Again(next) => {
                let rest = chase(next, email, password, answers.drop_first());
                ChaseRun { posts: 1 + rest.posts, end: rest.end }
            },
        }
    }
}

/// Chasing redirects ends within the bound, whatever the provider
/// answers: never are more forms submitted than the rounds that are left,
/// and once the provider has answered that many times the sign-in has
/// ended, with a code or with a failure. At the bound itself the failure
/// is that of too many rounds.
pub proof fn lemma_chase_is_bounded(
    s: ChaseModel,
    email: Seq<char>,
    password: Seq<char>,
    answers: Seq<PostResponseModel>,
)
    requires
        s.round <= s.max_rounds,
    ensures
        chase(s, email, password, answers).posts <= s.max_rounds - s.round,
        answers.len() >= s.max_rounds - s.round ==> chase(s, email, password, answers).end is Some,
        s.round == s.max_rounds ==> chase(s, email, password, answers).end == Some(
            Err::<Seq<char>, ErrorModel>(ErrorModel::AuthError(AuthFailureModel::TooManyRounds)),
        ),
    decreases answers.len(),
{
    if submission_of(s, email, password) is Ok && answers.len() > 0 {
        match verdict(submitted(s), answers[0]) {
            Verdict::Again(next) => {
                lemma_chase_is_bounded(next, email, password, answers.drop_first());
            },
            _ => {},
        }
    }
}

/// A provider that never redirects to the callback makes the sign-in fail:
/// where no answer is a redirect, no run of answers ends in a code.
pub proof fn lemma_chase_needs_callback(
    s: ChaseModel,
    email: Seq<char>,
    password: Seq<char>,
    answers: Seq<PostResponseModel>,
)
    requires
        forall|i: int| 0 <= i < answers.len() ==> !is_redirection((#[trigger] answers[i]).status),
    ensures
        !(chase(s, email, password, answers).end matches Some(Ok(_))),
    decreases answers.len(),
{
    if submission_of(s, email, password) is Ok && answers.len() > 0 {
        match verdict(submitted(s), answers[0]) {
            Verdict::Again(next) => {
                let rest = answers.drop_first();
                assert forall|i: int| 0 <= i < rest.len() implies !is_redirection(
                    (#[trigger] rest[i]).status,
                ) by {
                    assert(rest[i] == answers[i + 1]);
                }
                lemma_chase_needs_callback(next, email, password, rest);
            },
            _ => {},
        }
    }
}

} // verus!
