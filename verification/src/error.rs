//! The failures that the library reports, and how a rejected request is
//! told apart by its status.

use vstd::prelude::*;
use crate::text::{contains_text, has_subtext};

verus! {

/// Why a sign-in did not yield a credential.
#[derive(Debug, Clone, PartialEq, Eq)]
pub enum AuthFailure {
    /// A hidden field of the login page lacks its name or its value.
    MalformedPage,
    /// A redirect to the callback came without a target.
    MissingLocation,
    /// The callback's target carries no authorization code.
    MissingCode,
    /// The login form was answered with yet another page too many times.
    TooManyRounds,
    /// The token endpoint refused the request; the body it sent is kept.
    Rejected(String),
    /// The token endpoint answered with success, but its answer lacks the
    /// access token, the refresh token or the time to live.
    MalformedToken,
}

/// A message that the service, or this library in its place, gives for a
/// request that failed.
#[derive(Debug, Clone, PartialEq, Eq)]
pub struct AppError {
    pub message: String,
}

/// Everything that can go wrong.
#[derive(Debug, Clone, PartialEq, Eq)]
pub enum TeslaError {
    /// The identity provider's flow failed.
    AuthError(AuthFailure),
    /// A protected call was refused because the access token is not valid.
    InvalidTokenError,
    /// The vehicle or resource that was asked for does not exist.
    NotFoundError,
    /// The network failed or timed out; the text describes the failure.
    TransportError(String),
    /// A rule of this program itself was broken.
    SystemError,
    /// The service answered with an error of its own.
    ParseAppError(AppError),
}

/// What an `AuthFailure` holds, as a mathematical value.
pub enum AuthFailureModel {
    MalformedPage,
    MissingLocation,
    MissingCode,
    TooManyRounds,
    Rejected(Seq<char>),
    MalformedToken,
}

/// What a `TeslaError` holds, as a mathematical value.
pub enum ErrorModel {
    AuthError(AuthFailureModel),
    InvalidTokenError,
    NotFoundError,
    TransportError(Seq<char>),
    SystemError,
    ParseAppError(Seq<char>),
}

impl View for AuthFailure {
    type V = AuthFailureModel;

    open spec fn view(&self) -> AuthFailureModel {
        match self {
            AuthFailure::MalformedPage => AuthFailureModel::MalformedPage,
            AuthFailure::MissingLocation => AuthFailureModel::MissingLocation,
            AuthFailure::MissingCode => AuthFailureModel::MissingCode,
            AuthFailure::TooManyRounds => AuthFailureModel::TooManyRounds,
            AuthFailure::Rejected(body) => AuthFailureModel::Rejected(body@),
            AuthFailure::MalformedToken => AuthFailureModel::MalformedToken,
        }
    }
}

impl View for TeslaError {
    type V = ErrorModel;

    open spec fn view(&self) -> ErrorModel {
        match self {
            TeslaError::AuthError(why) => ErrorModel::AuthError(why@),
            TeslaError::InvalidTokenError => ErrorModel::InvalidTokenError,
            TeslaError::NotFoundError => ErrorModel::NotFoundError,
            TeslaError::TransportError(what) => ErrorModel::TransportError(what@),
            TeslaError::SystemError => ErrorModel::SystemError,
            TeslaError::ParseAppError(e) => ErrorModel::ParseAppError(e.message@),
        }
    }
}

/// Whether a status stands for success: 200 to 299.
pub open spec fn is_success(status: u16) -> bool {
    200 <= status < 300
}

/// Whether a status stands for a redirect: 300 to 399.
pub open spec fn is_redirection(status: u16) -> bool {
    300 <= status < 400
}

/// Whether a status stands for success.
pub fn status_is_success(status: u16) -> (yes: bool)
    ensures
        yes == is_success(status),
{
    200 <= status && status < 300
}

/// Whether a status stands for a redirect.
pub fn status_is_redirection(status: u16) -> (yes: bool)
    ensures
        yes == is_redirection(status),
{
    300 <= status && status < 400
}

/// The error that a refused request stands for, by its status and by the
/// text of its `www-authenticate` header.
pub open spec fn response_error(status: u16, www_authenticate: Option<Seq<char>>) -> ErrorModel {
    if status == 401 && www_authenticate is Some && has_subtext(
        www_authenticate->0,
        "invalid_token"@,
    ) {
        ErrorModel::InvalidTokenError
    } else if status == 404 {
        ErrorModel::NotFoundError
    } else if status == 408 {
        ErrorModel::TransportError("Connect Timeout (408)"@)
    } else {
        ErrorModel::ParseAppError("Unspecified error"@)
    }
}

/// Tells a refused request's error from its status and, where the request
/// was unauthorized, from the marker in its `www-authenticate` header. A
/// header that is not text counts as the empty text.
pub fn error_from_response(status: u16, www_authenticate: Option<&str>) -> (err: TeslaError)
    ensures
        err@ == response_error(
            status,
            match www_authenticate {
                Some(h) => Some(h@),
                None => None,
            },
        ),
{
    if status == 401 {
        match www_authenticate {
            Some(header) => {
                if contains_text(header, "invalid_token") {
                    return TeslaError::InvalidTokenError;
                }
            },
            None => {},
        }
        TeslaError::ParseAppError(AppError { message: "Unspecified error".to_owned() })
    } else if status == 404 {
        TeslaError::NotFoundError
    } else if status == 408 {
        TeslaError::TransportError("Connect Timeout (408)".to_owned())
    } else {
        TeslaError::ParseAppError(AppError { message: "Unspecified error".to_owned() })
    }
}

} // verus!
