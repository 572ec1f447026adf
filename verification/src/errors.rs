//! The pipeline's error taxonomy: each failure has a fixed status and
//! message pair, surfaced to the caller as a JSON body of the shape
//! `{"message": <string>}`, with no internal detail leaking.

use vstd::prelude::*;

verus! {

/// A failure of the authentication / authorisation pipeline.
#[derive(Debug, Clone, Copy, PartialEq, Eq, Structural)]
pub enum AuthError {
    /// Neither the `Authorization` header nor the access cookie held a
    /// credential.
    MissingCredentials,
    /// A malformed token, a bad signature or an unexpected payload.
    InvalidToken,
    /// A well-signed access token past its expiry; a trigger for the refresh
    /// fallback where one runs, surfaced like an invalid token otherwise.
    ExpiredToken,
    /// Login with a wrong e-mail or password.
    WrongCredentials,
    /// The refresh fallback could not help: no refresh cookie, or its
    /// verification failed.
    Unauthorised,
    /// The caller's role could not be resolved, or lacks the capability.
    Forbidden,
    /// An organisation was registered with an unknown subscription kind.
    InvalidSubscriptionType,
    /// A collaborator (key material, store) failed; nothing is leaked.
    Internal,
}

/// The HTTP status paired with each error.
pub open spec fn spec_status(e: AuthError) -> int {
    match e {
        AuthError::MissingCredentials => 400,
        AuthError::InvalidToken => 400,
        AuthError::ExpiredToken => 400,
        AuthError::WrongCredentials => 401,
        AuthError::Unauthorised => 401,
        AuthError::Forbidden => 403,
        AuthError::InvalidSubscriptionType => 400,
        AuthError::Internal => 500,
    }
}

/// The message paired with each error.
pub open spec fn spec_message(e: AuthError) -> Seq<char> {
    match e {
        AuthError::MissingCredentials => "Missing credentials"@,
        AuthError::InvalidToken => "Invalid auth token"@,
        AuthError::ExpiredToken => "Invalid auth token"@,
        AuthError::WrongCredentials => "Wrong email or password"@,
        AuthError::Unauthorised => "Login to continue."@,
        AuthError::Forbidden => "You do not have permission"@,
        AuthError::InvalidSubscriptionType => "Invalid subscription type"@,
        AuthError::Internal => "Something went wrong on our end"@,
    }
}

/// The JSON body `{"message": <m>}` built around a message.
pub open spec fn json_message_spec(m: Seq<char>) -> Seq<char> {
    "{\"message\":\""@ + m + "\"}"@
}

/// Builds the JSON body `{"message": <m>}`. The contract states the exact
/// character sequence; the fixed pipeline messages hold no character that
/// would need escaping.
pub fn json_message(m: &str) -> (r: String)
    ensures
        r@ == json_message_spec(m@),
{
    let mut out = String::from_str("{\"message\":\"");
    out.append(m);
    out.append("\"}");
    out
}

/// Mathematical view of a terminal response.
pub ghost struct RespView {
    pub status: int,
    pub body: Seq<char>,
}

/// A terminal response of a stage: the chain stops and this goes back to the
/// caller.
#[derive(Debug)]
pub struct StageResponse {
    /// HTTP status code.
    pub status: u16,
    /// JSON body.
    pub body: String,
}

impl View for StageResponse {
    type V = RespView;

    open spec fn view(&self) -> RespView {
        RespView { status: self.status as int, body: self.body@ }
    }
}

/// The response view an error maps to.
pub open spec fn spec_error_response(e: AuthError) -> RespView {
    RespView { status: spec_status(e), body: json_message_spec(spec_message(e)) }
}

impl AuthError {
    /// The HTTP status this error surfaces with.
    pub fn status(&self) -> (r: u16)
        ensures
            r as int == spec_status(*self),
    {
        match self {
            AuthError::MissingCredentials => 400,
            AuthError::InvalidToken => 400,
            AuthError::ExpiredToken => 400,
            AuthError::WrongCredentials => 401,
            AuthError::Unauthorised => 401,
            AuthError::Forbidden => 403,
            AuthError::InvalidSubscriptionType => 400,
            AuthError::Internal => 500,
        }
    }

    /// The fixed message this error surfaces with.
    pub fn message(&self) -> (r: &'static str)
        ensures
            r@ == spec_message(*self),
    {
        match self {
            AuthError::MissingCredentials => "Missing credentials",
            AuthError::InvalidToken => "Invalid auth token",
            AuthError::ExpiredToken => "Invalid auth token",
            AuthError::WrongCredentials => "Wrong email or password",
            AuthError::Unauthorised => "Login to continue.",
            AuthError::Forbidden => "You do not have permission",
            AuthError::InvalidSubscriptionType => "Invalid subscription type",
            AuthError::Internal => "Something went wrong on our end",
        }
    }

    /// The terminal response this error maps to: its status, and its message
    /// wrapped as `{"message": <string>}`.
    pub fn response(&self) -> (r: StageResponse)
        ensures
            r@ == spec_error_response(*self),
    {
        StageResponse { status: self.status(), body: json_message(self.message()) }
    }
}

} // verus!
