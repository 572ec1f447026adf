//! The signed token payload: subject identity, role snapshot and the
//! validity window, exactly the wire fields `sub`, `role`, `exp`, `iat`.

use vstd::prelude::*;

verus! {

/// Mathematical view of a claims payload.
pub ghost struct ClaimsView {
    pub sub: Seq<char>,
    pub role: Seq<char>,
    pub exp: int,
    pub iat: int,
}

/// The signed payload of a token: who the caller is, the role name at issue
/// time, and the issued-at / expires-at Unix timestamps in seconds.
#[derive(Debug)]
pub struct TokenClaims {
    /// Opaque caller identity key.
    pub sub: String,
    /// Role name at the time of issuance; a snapshot, not a live reference.
    pub role: String,
    /// Expiry as a Unix timestamp in seconds.
    pub exp: i64,
    /// Issued-at as a Unix timestamp in seconds.
    pub iat: i64,
}

impl View for TokenClaims {
    type V = ClaimsView;

    open spec fn view(&self) -> ClaimsView {
        ClaimsView { sub: self.sub@, role: self.role@, exp: self.exp as int, iat: self.iat as int }
    }
}

impl TokenClaims {
    /// A claims payload is well formed when its expiry lies strictly after
    /// its issue time.
    pub open spec fn wf(&self) -> bool {
        self@.iat < self@.exp
    }

    /// Builds a claims payload field by field.
    pub fn new(sub: &str, role: &str, iat: i64, exp: i64) -> (r: TokenClaims)
        ensures
            r@ == (ClaimsView { sub: sub@, role: role@, exp: exp as int, iat: iat as int }),
    {
        TokenClaims { sub: sub.to_owned(), role: role.to_owned(), exp, iat }
    }
}

} // verus!
