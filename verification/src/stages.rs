//! The ordered middleware stage decisions. Each stage independently
//! re-derives the caller's identity from the wire credential, fails closed
//! with a fixed terminal response, and never recovers partially; the one
//! defined fallback is the refresh stage's access-to-refresh substitution.
//! Store lookups are collaborator calls, so each stage that needs one is
//! split into a decision before the lookup and a decision after it.

use vstd::prelude::*;

use crate::claims::{ClaimsView, TokenClaims};
use crate::errors::{
    json_message, json_message_spec, spec_error_response, AuthError, RespView, StageResponse,
};
use crate::extract::{extract_bearer, extracted};
use crate::permissions::PermSet;
use crate::roles::Role;
use crate::strutil::{
    ascii_lower, contains_sub, dec_str, eq_ignore_ascii_case, str_contains, trim, trim_spec,
    u64_to_string,
};
use crate::token::{claims_of, spec_verify, TokenCodec, TokenError};

verus! {

/// The HTTP request methods the capability rules tell apart.
#[derive(Debug, Clone, Copy, PartialEq, Eq, Structural)]
pub enum Method {
    Get,
    Head,
    Options,
    Connect,
    Trace,
    Post,
    Put,
    Patch,
    Delete,
    Other,
}

/// The write-class verbs: create or update, the idempotent replace
/// included.
pub open spec fn is_write_verb(m: Method) -> bool {
    m == Method::Post || m == Method::Put || m == Method::Patch
}

/// What authenticating a request against one token codec yields: the claims
/// of a credential that was found and verified, or the first failure.
pub open spec fn spec_authenticate(
    key: Seq<u8>,
    header: Option<Seq<char>>,
    cookie: Option<Seq<char>>,
    now: int,
) -> Result<ClaimsView, AuthError> {
    match extracted(header, cookie) {
        None => Err(AuthError::MissingCredentials),
        Some(token) => match spec_verify(key, token, now) {
            Ok(c) => Ok(c),
            Err(TokenError::Expired) => Err(AuthError::ExpiredToken),
            Err(TokenError::Invalid) => Err(AuthError::InvalidToken),
        },
    }
}

/// Authenticates a request: extracts the bearer credential over both
/// channels and verifies it with `codec` at time `now`.
pub fn authenticate(
    codec: &TokenCodec,
    header: Option<&str>,
    cookie: Option<&str>,
    now: i64,
) -> (r: Result<TokenClaims, AuthError>)
    ensures
        match r {
            Ok(c) => spec_authenticate(
                codec.dec_key(),
                header.deep_view(),
                cookie.deep_view(),
                now as int,
            ) == Ok::<ClaimsView, AuthError>(c@),
            Err(e) => spec_authenticate(
                codec.dec_key(),
                header.deep_view(),
                cookie.deep_view(),
                now as int,
            ) == Err::<ClaimsView, AuthError>(e),
        },
{
    match extract_bearer(header, cookie) {
        None => Err(AuthError::MissingCredentials),
        Some(token) => match codec.verify(token, now) {
            Ok(c) => Ok(c),
            Err(TokenError::Expired) => Err(AuthError::ExpiredToken),
            Err(TokenError::Invalid) => Err(AuthError::InvalidToken),
        },
    }
}

/// Mathematical view of a stage's decision.
pub ghost enum StageDecision {
    Proceed(ClaimsView),
    Halt(RespView),
}

/// A stage's decision: attach the claims and invoke the inner chain, or
/// stop the chain with a terminal response.
#[derive(Debug)]
pub enum StageOutcome {
    Proceed(TokenClaims),
    Halt(StageResponse),
}

/// Whether an outcome carries exactly the decision `d`.
pub open spec fn outcome_matches(r: StageOutcome, d: StageDecision) -> bool {
    match (r, d) {
        (StageOutcome::Proceed(c), StageDecision::Proceed(cv)) => c@ == cv,
        (StageOutcome::Halt(h), StageDecision::Halt(hv)) => h@ == hv,
        _ => false,
    }
}

/// What the authentication stage decides: proceed with the verified claims
/// attached, or halt with the failure's mapped response.
pub open spec fn spec_auth_stage(
    key: Seq<u8>,
    header: Option<Seq<char>>,
    cookie: Option<Seq<char>>,
    now: int,
) -> StageDecision {
    match spec_authenticate(key, header, cookie, now) {
        Ok(c) => StageDecision::Proceed(c),
        Err(e) => StageDecision::Halt(spec_error_response(e)),
    }
}

/// The authentication stage: validates the access credential and either
/// hands the claims on or halts the chain with the mapped error response.
pub fn auth_stage(
    codec: &TokenCodec,
    header: Option<&str>,
    cookie: Option<&str>,
    now: i64,
) -> (r: StageOutcome)
    ensures
        outcome_matches(
            r,
            spec_auth_stage(codec.dec_key(), header.deep_view(), cookie.deep_view(), now as int),
        ),
{
    match authenticate(codec, header, cookie, now) {
        Ok(c) => StageOutcome::Proceed(c),
        Err(e) => StageOutcome::Halt(e.response()),
    }
}

/// Whether a role name passes a gate for `required`: equal after trimming
/// ASCII whitespace and folding ASCII case.
pub open spec fn role_gate_spec(role: Seq<char>, required: Seq<char>) -> bool {
    ascii_lower(trim_spec(role)) == ascii_lower(required)
}

/// Compares a claims role name against a required role, ignoring
/// surrounding whitespace and ASCII case.
pub fn role_matches(role: &str, required: &str) -> (r: bool)
    ensures
        r == role_gate_spec(role@, required@),
{
    eq_ignore_ascii_case(trim(role), required)
}

/// What the admin gate decides: the mapped error for a failed
/// authentication, a fixed forbidden response for any role but `admin`,
/// else proceed.
pub open spec fn spec_admin_stage(
    key: Seq<u8>,
    header: Option<Seq<char>>,
    cookie: Option<Seq<char>>,
    now: int,
) -> StageDecision {
    match spec_authenticate(key, header, cookie, now) {
        Err(e) => StageDecision::Halt(spec_error_response(e)),
        Ok(c) => if role_gate_spec(c.role, "admin"@) {
            StageDecision::Proceed(c)
        } else {
            StageDecision::Halt(
                RespView {
                    status: 403,
                    body: json_message_spec("You do not have enough permission to continue"@),
                },
            )
        },
    }
}

/// The admin gate: re-validates the access credential and additionally
/// requires the role name to match `admin`, case-insensitively.
pub fn admin_stage(
    codec: &TokenCodec,
    header: Option<&str>,
    cookie: Option<&str>,
    now: i64,
) -> (r: StageOutcome)
    ensures
        outcome_matches(
            r,
            spec_admin_stage(codec.dec_key(), header.deep_view(), cookie.deep_view(), now as int),
        ),
{
    match authenticate(codec, header, cookie, now) {
        Err(e) => StageOutcome::Halt(e.response()),
        Ok(c) => if role_matches(c.role.as_str(), "admin") {
            StageOutcome::Proceed(c)
        } else {
            StageOutcome::Halt(
                StageResponse {
                    status: 403,
                    body: json_message("You do not have enough permission to continue"),
                },
            )
        },
    }
}

/// What the staff gate decides, as the admin gate with the `staff` role and
/// its own forbidden body.
pub open spec fn spec_staff_stage(
    key: Seq<u8>,
    header: Option<Seq<char>>,
    cookie: Option<Seq<char>>,
    now: int,
) -> StageDecision {
    match spec_authenticate(key, header, cookie, now) {
        Err(e) => StageDecision::Halt(spec_error_response(e)),
        Ok(c) => if role_gate_spec(c.role, "staff"@) {
            StageDecision::Proceed(c)
        } else {
            StageDecision::Halt(
                RespView { status: 403, body: json_message_spec("Forbidden. Permission denied"@) },
            )
        },
    }
}

/// The staff gate: re-validates the access credential and additionally
/// requires the role name to match `staff`, case-insensitively.
pub fn staff_stage(
    codec: &TokenCodec,
    header: Option<&str>,
    cookie: Option<&str>,
    now: i64,
) -> (r: StageOutcome)
    ensures
        outcome_matches(
            r,
            spec_staff_stage(codec.dec_key(), header.deep_view(), cookie.deep_view(), now as int),
        ),
{
    match authenticate(codec, header, cookie, now) {
        Err(e) => StageOutcome::Halt(e.response()),
        Ok(c) => if role_matches(c.role.as_str(), "staff") {
            StageOutcome::Proceed(c)
        } else {
            StageOutcome::Halt(
                StageResponse { status: 403, body: json_message("Forbidden. Permission denied") },
            )
        },
    }
}

/// Mathematical view of the refresh stage's first decision.
pub ghost enum RefreshStepView {
    Proceed(ClaimsView),
    LookupUser(ClaimsView),
    Halt(RespView),
}

/// The refresh stage's decision before any store lookup: forward with the
/// still-valid access claims; or look the caller up by the verified refresh
/// claims' subject; or stop the chain.
#[derive(Debug)]
pub enum RefreshStep {
    Proceed(TokenClaims),
    LookupUser(TokenClaims),
    Halt(StageResponse),
}

/// Whether a refresh step carries exactly the decision `d`.
pub open spec fn refresh_step_matches(r: RefreshStep, d: RefreshStepView) -> bool {
    match (r, d) {
        (RefreshStep::Proceed(c), RefreshStepView::Proceed(cv)) => c@ == cv,
        (RefreshStep::LookupUser(c), RefreshStepView::LookupUser(cv)) => c@ == cv,
        (RefreshStep::Halt(h), RefreshStepView::Halt(hv)) => h@ == hv,
        _ => false,
    }
}

/// What the refresh stage decides before the store lookup: a valid access
/// credential forwards unchanged; otherwise a missing refresh cookie is
/// terminal `Unauthorised`, a refresh token that fails verification (expiry
/// included) is terminal `Invalid auth token`, and a verified one asks for
/// the caller's record.
pub open spec fn spec_refresh_begin(
    access_key: Seq<u8>,
    refresh_key: Seq<u8>,
    header: Option<Seq<char>>,
    access_cookie: Option<Seq<char>>,
    refresh_cookie: Option<Seq<char>>,
    now: int,
) -> RefreshStepView {
    match spec_authenticate(access_key, header, access_cookie, now) {
        Ok(c) => RefreshStepView::Proceed(c),
        Err(_) => match refresh_cookie {
            None => RefreshStepView::Halt(spec_error_response(AuthError::Unauthorised)),
            Some(rt) => match spec_verify(refresh_key, rt, now) {
                Ok(rc) => RefreshStepView::LookupUser(rc),
                Err(_) => RefreshStepView::Halt(spec_error_response(AuthError::InvalidToken)),
            },
        },
    }
}

/// The refresh stage up to the store lookup: runs the authentication
/// stage's validation inline and, on its failure, falls back to the refresh
/// cookie. The inner chain is reached only through `Proceed` or through
/// `LookupUser` followed by `refresh_resume`.
pub fn refresh_begin(
    access: &TokenCodec,
    refresh: &TokenCodec,
    header: Option<&str>,
    access_cookie: Option<&str>,
    refresh_cookie: Option<&str>,
    now: i64,
) -> (r: RefreshStep)
    ensures
        refresh_step_matches(
            r,
            spec_refresh_begin(
                access.dec_key(),
                refresh.dec_key(),
                header.deep_view(),
                access_cookie.deep_view(),
                refresh_cookie.deep_view(),
                now as int,
            ),
        ),
{
    match authenticate(access, header, access_cookie, now) {
        Ok(c) => RefreshStep::Proceed(c),
        Err(_) => match refresh_cookie {
            None => RefreshStep::Halt(AuthError::Unauthorised.response()),
            Some(rt) => match refresh.verify(rt, now) {
                Ok(rc) => RefreshStep::LookupUser(rc),
                Err(_) => RefreshStep::Halt(AuthError::InvalidToken.response()),
            },
        },
    }
}

/// Dual-channel extraction: a request carrying a token only in the access
/// cookie authenticates exactly as one carrying `Bearer <token>` only in
/// the `Authorization` header.
pub proof fn lemma_dual_channel(key: Seq<u8>, token: Seq<char>, now: int)
    ensures
        spec_authenticate(key, Some(bearer_header_spec(token)), None, now) == spec_authenticate(
            key,
            None,
            Some(token),
            now,
        ),
{
    reveal_strlit("Bearer ");
    let h = "Bearer "@ + token;
    assert(h.subrange(0, 7) =~= "Bearer "@);
    assert(h.subrange(7, h.len() as int) =~= token);
}

/// The admin and staff gates are case-insensitive in the role name: two
/// role names equal after ASCII case folding pass or fail a gate together.
pub proof fn lemma_role_gate_case_insensitive(a: Seq<char>, b: Seq<char>, required: Seq<char>)
    requires
        ascii_lower(a) == ascii_lower(b),
    ensures
        role_gate_spec(a, required) == role_gate_spec(b, required),
{
    crate::strutil::lemma_trim_lower(a, b);
}

/// What the store lookup for the refresh claims' subject brought back.
#[derive(Debug)]
pub enum UserLookup {
    /// The caller's record: its identity key and its current role name,
    /// which may differ from the stale role in the refresh claims.
    Found { sub: String, role: String },
    /// No record under that identity key.
    NotFound,
    /// The store itself failed.
    Failed,
}

/// The refresh stage's decision after the store lookup: forward the request
/// with the refresh claims attached and a fresh access token to append to
/// the response, or stop the chain.
#[derive(Debug)]
pub enum RefreshResume {
    Forward { claims: TokenClaims, access_token: String },
    Halt(StageResponse),
}

/// The refresh stage after the store lookup: an unknown subject is terminal
/// `Invalid auth token`; a store failure is terminal and leaks nothing; for
/// a found caller a fresh access token is issued from the caller's current
/// role, valid from `now` for the access codec's validity window. The
/// response carries the refresh claims, never the new token's claims.
pub fn refresh_resume(
    access: &TokenCodec,
    refresh_claims: TokenClaims,
    lookup: &UserLookup,
    now: i64,
) -> (r: RefreshResume)
    requires
        access.wf(),
        0 <= now,
        now + access.spec_max_age() <= i64::MAX,
    ensures
        match lookup {
            UserLookup::NotFound => match r {
                RefreshResume::Halt(h) => h@ == spec_error_response(AuthError::InvalidToken),
                _ => false,
            },
            UserLookup::Failed => match r {
                RefreshResume::Halt(h) => h@ == spec_error_response(AuthError::Internal),
                _ => false,
            },
            UserLookup::Found { sub, role } => match r {
                RefreshResume::Forward { claims, access_token } => {
                    &&& claims@ == refresh_claims@
                    &&& claims_of(access.dec_key(), access_token@) == Some(
                        ClaimsView {
                            sub: sub@,
                            role: role@,
                            exp: now + access.spec_max_age(),
                            iat: now as int,
                        },
                    )
                    &&& spec_verify(access.dec_key(), access_token@, now as int) == Ok::<
                        ClaimsView,
                        TokenError,
                    >(
                        ClaimsView {
                            sub: sub@,
                            role: role@,
                            exp: now + access.spec_max_age(),
                            iat: now as int,
                        },
                    )
                },
                RefreshResume::Halt(h) => h@ == spec_error_response(AuthError::Internal),
            },
        },
{
    match lookup {
        UserLookup::NotFound => RefreshResume::Halt(AuthError::InvalidToken.response()),
        UserLookup::Failed => RefreshResume::Halt(AuthError::Internal.response()),
        UserLookup::Found { sub, role } => match access.issue_for(
            sub.as_str(),
            role.as_str(),
            now,
        ) {
            Ok(token) => RefreshResume::Forward {
                claims: refresh_claims,
                access_token: token,
            },
            Err(_) => RefreshResume::Halt(AuthError::Internal.response()),
        },
    }
}

/// The `Authorization` value that carries a token: the `Bearer` scheme and
/// the token.
pub open spec fn bearer_header_spec(token: Seq<char>) -> Seq<char> {
    "Bearer "@ + token
}

/// Builds the `Authorization` value `Bearer <token>`.
pub fn bearer_header_value(token: &str) -> (r: String)
    ensures
        r@ == bearer_header_spec(token@),
{
    let mut out = String::from_str("Bearer ");
    out.append(token);
    out
}

/// The `Set-Cookie` value that hands a fresh access token to the browser:
/// path `/`, http-only, not marked secure, with the access validity window
/// as its max-age.
pub open spec fn access_cookie_spec(token: Seq<char>, max_age: int) -> Seq<char> {
    "accessToken="@ + token + "; Path=/; HttpOnly; Max-Age="@ + dec_str(max_age)
}

/// Builds the `Set-Cookie` value for a fresh access token.
pub fn access_cookie_value(token: &str, max_age: i64) -> (r: String)
    requires
        0 <= max_age,
    ensures
        r@ == access_cookie_spec(token@, max_age as int),
{
    let mut out = String::from_str("accessToken=");
    out.append(token);
    out.append("; Path=/; HttpOnly; Max-Age=");
    let digits = u64_to_string(max_age as u64);
    out.append(digits.as_str());
    out
}

/// What the role-directory lookup for the claims' role name brought back.
#[derive(Debug)]
pub enum RoleLookup {
    Found(Role),
    NotFound,
    Failed,
}

/// The authorisation stage's decision after the role lookup: proceed with
/// claims and role attached, or stop the chain.
#[derive(Debug)]
pub enum AuthzOutcome {
    Proceed { claims: TokenClaims, role: Role },
    Halt(StageResponse),
}

/// The fixed forbidden body of the capability checks.
pub open spec fn spec_capability_denied() -> RespView {
    RespView { status: 403, body: json_message_spec("Forbidden. Access denied"@) }
}

/// The capability rules, evaluated in their fixed order, first match wins:
/// a path containing `users` demands the manage-users capability; a delete
/// verb demands the delete capability; a write verb demands the write
/// capability; anything else is allowed — read access is not separately
/// checked.
pub open spec fn spec_capability_check(p: PermSet, m: Method, path: Seq<char>) -> Option<
    RespView,
> {
    if contains_sub(path, "users"@) && !p.manage_users {
        Some(spec_capability_denied())
    } else if m == Method::Delete && !p.delete {
        Some(spec_capability_denied())
    } else if is_write_verb(m) && !p.write {
        Some(spec_capability_denied())
    } else {
        None
    }
}

/// Capability enforcement. A role without the delete capability is
/// forbidden any delete-verb request, to any path. A role with the write
/// capability passes a write-verb request to any path without `users`. On
/// a path containing `users` the manage-users capability alone decides the
/// first rule: without it any request is forbidden; with it, a write-verb
/// request of a role that can write is allowed.
pub proof fn lemma_capability_enforcement(p: PermSet, m: Method, path: Seq<char>)
    ensures
        !p.delete && m == Method::Delete ==> spec_capability_check(p, m, path) == Some(
            spec_capability_denied(),
        ),
        p.write && is_write_verb(m) && !contains_sub(path, "users"@) ==> spec_capability_check(
            p,
            m,
            path,
        ) is None,
        !p.manage_users && contains_sub(path, "users"@) ==> spec_capability_check(p, m, path)
            == Some(spec_capability_denied()),
        p.manage_users && p.write && is_write_verb(m) && m != Method::Delete
            ==> spec_capability_check(p, m, path) is None,
{
}

/// The authorisation stage after the role lookup: fails closed `Forbidden`
/// when the role cannot be resolved, terminal when the directory failed,
/// and otherwise applies the capability rules to the request's method and
/// path; on allow both claims and role are attached for the inner chain.
pub fn authorisation_resume(
    claims: TokenClaims,
    role_lookup: RoleLookup,
    method: Method,
    path: &str,
) -> (r: AuthzOutcome)
    ensures
        match role_lookup {
            RoleLookup::NotFound => match r {
                AuthzOutcome::Halt(h) => h@ == spec_error_response(AuthError::Forbidden),
                _ => false,
            },
            RoleLookup::Failed => match r {
                AuthzOutcome::Halt(h) => h@ == spec_error_response(AuthError::Internal),
                _ => false,
            },
            RoleLookup::Found(role) => match spec_capability_check(
                role@.permissions,
                method,
                path@,
            ) {
                Some(denied) => match r {
                    AuthzOutcome::Halt(h) => h@ == denied,
                    _ => false,
                },
                None => match r {
                    AuthzOutcome::Proceed { claims: c, role: ro } => c@ == claims@ && ro@ == role@,
                    _ => false,
                },
            },
        },
{
    match role_lookup {
        RoleLookup::NotFound => AuthzOutcome::Halt(AuthError::Forbidden.response()),
        RoleLookup::Failed => AuthzOutcome::Halt(AuthError::Internal.response()),
        RoleLookup::Found(role) => {
            let denied = StageResponse { status: 403, body: json_message("Forbidden. Access denied") };
            if str_contains(path, "users") && !role.can_manage_users() {
                AuthzOutcome::Halt(denied)
            } else if method == Method::Delete && !role.can_delete() {
                AuthzOutcome::Halt(denied)
            } else if (method == Method::Post || method == Method::Put || method == Method::Patch)
                && !role.can_write() {
                AuthzOutcome::Halt(denied)
            } else {
                AuthzOutcome::Proceed { claims, role }
            }
        },
    }
}

} // verus!
