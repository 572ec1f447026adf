//! Asymmetric-key token codec: one instance per token class (access,
//! refresh), each holding an RSA key pair and its validity duration. Claims
//! are signed with the private key and verified with the public key; expiry
//! is checked against an explicit timestamp so that the signature check
//! stays a pure function of key and token.

use vstd::prelude::*;

use crate::claims::{ClaimsView, TokenClaims};

verus! {

#[verifier::external_type_specification]
#[verifier::external_body]
pub struct ExEncodingKey(jsonwebtoken::EncodingKey);

#[verifier::external_type_specification]
#[verifier::external_body]
pub struct ExDecodingKey(jsonwebtoken::DecodingKey);

/// The token that signing the payload `{sub, role, exp, iat}` with the
/// private (encoding) key named by `enc_key` produces. RS256 signing is
/// deterministic, so the token is a function of the encoding key material
/// and the claims alone.
pub uninterp spec fn token_of(enc_key: Seq<u8>, sub: Seq<char>, role: Seq<char>, exp: int, iat: int) -> Seq<char>;

/// The claims that `jsonwebtoken::decode`, run with this library's fixed
/// validation setup (RS256 only, expiry validation off), yields under the
/// public (decoding) key named by `dec_key`: `Some` exactly when the token
/// is well formed, carries an RS256 header, its signature verifies, its
/// payload passes the fixed validation — which demands an `exp` claim that
/// parses as a non-negative number, and rejects, among others, a payload
/// carrying an `aud` claim — and holds string `sub` and `role` and integer
/// `exp` and `iat`; `None` otherwise. Expiry against the clock is not part
/// of this check.
pub uninterp spec fn claims_of(dec_key: Seq<u8>, token: Seq<char>) -> Option<ClaimsView>;

/// The two key halves invert one another: decoding under `dec_key` a token
/// built under `enc_key` yields the payload back. This holds exactly when
/// the two halves belong to one RSA key pair, and only for payloads whose
/// expiry is non-negative: the decoder demands an expiry that parses as an
/// unsigned number, so a negative one never round-trips.
pub open spec fn key_inverts(enc_key: Seq<u8>, dec_key: Seq<u8>) -> bool {
    forall|sub: Seq<char>, role: Seq<char>, exp: int, iat: int|
        0 <= exp <= i64::MAX && i64::MIN <= iat <= i64::MAX
            ==> #[trigger] claims_of(dec_key, token_of(enc_key, sub, role, exp, iat)) == Some(
            ClaimsView { sub, role, exp, iat },
        )
}

/// Key material could not be read as an RSA PEM key, or signing failed.
#[derive(Debug, Clone, Copy, PartialEq, Eq, Structural)]
pub struct KeyError;

/// Why a token failed verification: a well-signed token past its expiry is
/// `Expired`; a malformed token, a bad signature or an unexpected payload is
/// `Invalid`. The distinction is load-bearing: only `Expired` (or absence)
/// makes the refresh stage try its fallback.
#[derive(Debug, Clone, Copy, PartialEq, Eq, Structural)]
pub enum TokenError {
    Expired,
    Invalid,
}

/// What verifying `token` under the decoding key named by `key` at time
/// `now` yields: the claims when the signature check accepts and the expiry
/// lies strictly in the future, `Expired` when only the expiry has passed,
/// `Invalid` otherwise.
pub open spec fn spec_verify(key: Seq<u8>, token: Seq<char>, now: int) -> Result<ClaimsView, TokenError> {
    match claims_of(key, token) {
        Some(c) => if c.exp <= now {
            Err(TokenError::Expired)
        } else {
            Ok(c)
        },
        None => Err(TokenError::Invalid),
    }
}

/// Codec for one token class: an RSA key pair and the class's validity
/// duration in seconds.
pub struct TokenCodec {
    encoding: jsonwebtoken::EncodingKey,
    decoding: jsonwebtoken::DecodingKey,
    max_age: i64,
    enc_pem: Vec<u8>,
    dec_pem: Vec<u8>,
}

impl TokenCodec {
    /// Names the private (encoding) half this codec signs with: its PEM
    /// bytes.
    pub closed spec fn enc_key(&self) -> Seq<u8> {
        self.enc_pem@
    }

    /// Names the public (decoding) half this codec verifies with: its PEM
    /// bytes.
    pub closed spec fn dec_key(&self) -> Seq<u8> {
        self.dec_pem@
    }

    /// The validity duration, in seconds, of tokens this codec issues.
    pub closed spec fn spec_max_age(&self) -> int {
        self.max_age as int
    }

    /// A codec is well formed when its validity duration is positive and
    /// its two key halves invert one another. Nothing in the library checks
    /// the halves against each other — that they form one RSA pair is the
    /// hypothesis under which tokens are issued, met by the key files
    /// loaded at process start.
    pub open spec fn wf(&self) -> bool {
        0 < self.spec_max_age() && key_inverts(self.enc_key(), self.dec_key())
    }

    /// The validity duration, in seconds, of tokens this codec issues.
    pub fn max_age(&self) -> (r: i64)
        ensures
            r == self.spec_max_age(),
    {
        self.max_age
    }

    /// Relies on `jsonwebtoken::EncodingKey::from_rsa_pem` and
    /// `jsonwebtoken::DecodingKey::from_rsa_pem` to load the key material;
    /// each rejects bytes that are not a valid RSA key in PEM form, and
    /// each accepts its half on its own. Nothing here checks that the two
    /// halves belong to one key pair: the codec's `wf` hypothesis states
    /// that, and callers that sign take it on the key files loaded at
    /// process start.
    #[verifier::external_body]
    pub fn from_rsa_pems(private_pem: &[u8], public_pem: &[u8], max_age: i64) -> (r: Result<
        TokenCodec,
        KeyError,
    >)
        requires
            0 < max_age,
        ensures
            r matches Ok(c) ==> c.enc_key() == private_pem@ && c.dec_key() == public_pem@
                && c.spec_max_age() == max_age,
    {
        let encoding = match jsonwebtoken::EncodingKey::from_rsa_pem(private_pem) {
            Ok(k) => k,
            Err(_) => return Err(KeyError),
        };
        let decoding = match jsonwebtoken::DecodingKey::from_rsa_pem(public_pem) {
            Ok(k) => k,
            Err(_) => return Err(KeyError),
        };
        Ok(TokenCodec {
            encoding,
            decoding,
            max_age,
            enc_pem: private_pem.to_vec(),
            dec_pem: public_pem.to_vec(),
        })
    }

    /// Relies on `jsonwebtoken::encode`: serialises the claims as the JSON
    /// object `{sub, role, exp, iat}`, signs it RS256 with the private key,
    /// and fails only on key-material trouble. With a fixed header and key
    /// the token is a function of the claims alone, named `token_of`.
    #[verifier::external_body]
    fn encode_claims(&self, claims: &TokenClaims) -> (r: Result<String, KeyError>)
        ensures
            r matches Ok(t) ==> t@ == token_of(
                self.enc_key(),
                claims.sub@,
                claims.role@,
                claims.exp as int,
                claims.iat as int,
            ),
    {
        let mut m = serde_json::Map::new();
        m.insert("sub".to_string(), serde_json::Value::String(claims.sub.clone()));
        m.insert("role".to_string(), serde_json::Value::String(claims.role.clone()));
        m.insert("exp".to_string(), serde_json::Value::from(claims.exp));
        m.insert("iat".to_string(), serde_json::Value::from(claims.iat));
        let header = jsonwebtoken::Header::new(jsonwebtoken::Algorithm::RS256);
        jsonwebtoken::encode(&header, &serde_json::Value::Object(m), &self.encoding).map_err(|_| KeyError)
    }

    /// Relies on `jsonwebtoken::decode` run with expiry validation switched
    /// off: with a fixed validation setup the outcome is a function of the
    /// decoding key material and the token alone, named `claims_of`.
    #[verifier::external_body]
    fn decode_claims(&self, token: &str) -> (r: Option<TokenClaims>)
        ensures
            match r {
                Some(c) => claims_of(self.dec_key(), token@) == Some(c@),
                None => claims_of(self.dec_key(), token@) is None,
            },
    {
        let mut validation = jsonwebtoken::Validation::new(jsonwebtoken::Algorithm::RS256);
        validation.validate_exp = false;
        let data = match jsonwebtoken::decode::<serde_json::Value>(token, &self.decoding, &validation) {
            Ok(d) => d,
            Err(_) => return None,
        };
        match (data.claims.get("sub"), data.claims.get("role"), data.claims.get("exp"), data.claims.get("iat")) {
            (Some(serde_json::Value::String(sub)), Some(serde_json::Value::String(role)), Some(exp), Some(iat)) =>
                match (exp.as_i64(), iat.as_i64()) {
                    (Some(exp), Some(iat)) => Some(TokenClaims { sub: sub.clone(), role: role.clone(), exp, iat }),
                    _ => None,
                },
            _ => None,
        }
    }

    /// Signs a claims payload. On success, and for a payload whose expiry
    /// is non-negative (the decoder rejects a negative expiry number
    /// outright), the token round-trips: verifying it with this codec
    /// yields the payload back whenever the expiry still lies in the
    /// future, and `Expired` from the expiry on.
    pub fn issue(&self, claims: &TokenClaims) -> (r: Result<String, KeyError>)
        requires
            self.wf(),
        ensures
            r matches Ok(t) ==> {
                &&& t@ == token_of(
                    self.enc_key(),
                    claims@.sub,
                    claims@.role,
                    claims@.exp,
                    claims@.iat,
                )
                &&& 0 <= claims@.exp ==> claims_of(self.dec_key(), t@) == Some(claims@)
                &&& forall|now: int|
                    0 <= claims@.exp && now < claims@.exp ==> spec_verify(self.dec_key(), t@, now)
                        == Ok::<ClaimsView, TokenError>(claims@)
                &&& forall|now: int|
                    0 <= claims@.exp && claims@.exp <= now ==> spec_verify(
                        self.dec_key(),
                        t@,
                        now,
                    ) == Err::<ClaimsView, TokenError>(TokenError::Expired)
            },
    {
        self.encode_claims(claims)
    }

    /// Signs a fresh claims payload for `sub` with role snapshot `role`,
    /// issued at `now` and expiring after this codec's validity duration.
    pub fn issue_for(&self, sub: &str, role: &str, now: i64) -> (r: Result<String, KeyError>)
        requires
            self.wf(),
            0 <= now,
            now + self.spec_max_age() <= i64::MAX,
        ensures
            r matches Ok(t) ==> {
                &&& claims_of(self.dec_key(), t@) == Some(
                    ClaimsView {
                        sub: sub@,
                        role: role@,
                        exp: now + self.spec_max_age(),
                        iat: now as int,
                    },
                )
                &&& forall|n: int|
                    n < now + self.spec_max_age() ==> spec_verify(self.dec_key(), t@, n) == Ok::<
                        ClaimsView,
                        TokenError,
                    >(
                        ClaimsView {
                            sub: sub@,
                            role: role@,
                            exp: now + self.spec_max_age(),
                            iat: now as int,
                        },
                    )
            },
    {
        let claims = TokenClaims::new(sub, role, now, now + self.max_age);
        self.issue(&claims)
    }

    /// Verifies a token at time `now`: the claims when the signature checks
    /// out under this codec's public key and the expiry lies strictly in the
    /// future, `Expired` when only the expiry has passed, `Invalid` for a
    /// malformed token, a bad signature or an unexpected payload.
    pub fn verify(&self, token: &str, now: i64) -> (r: Result<TokenClaims, TokenError>)
        ensures
            match r {
                Ok(c) => spec_verify(self.dec_key(), token@, now as int) == Ok::<
                    ClaimsView,
                    TokenError,
                >(c@),
                Err(e) => spec_verify(self.dec_key(), token@, now as int) == Err::<
                    ClaimsView,
                    TokenError,
                >(e),
            },
    {
        match self.decode_claims(token) {
            None => Err(TokenError::Invalid),
            Some(c) => if c.exp <= now {
                Err(TokenError::Expired)
            } else {
                Ok(c)
            },
        }
    }
}

/// Round trip: under two key halves that invert — the hypothesis a codec
/// built from one RSA pair meets — the token issued from any claims
/// payload with a non-negative expiry verifies back to exactly that
/// payload at any time strictly before its expiry. A payload with a
/// negative expiry is left out: the decoder rejects it outright.
pub proof fn lemma_issue_verify_round_trip(
    enc_key: Seq<u8>,
    dec_key: Seq<u8>,
    c: ClaimsView,
    now: int,
)
    requires
        key_inverts(enc_key, dec_key),
        0 <= c.exp <= i64::MAX,
        i64::MIN <= c.iat <= i64::MAX,
        now < c.exp,
    ensures
        spec_verify(dec_key, token_of(enc_key, c.sub, c.role, c.exp, c.iat), now) == Ok::<
            ClaimsView,
            TokenError,
        >(c),
{
    assert(claims_of(dec_key, token_of(enc_key, c.sub, c.role, c.exp, c.iat)) == Some(
        ClaimsView { sub: c.sub, role: c.role, exp: c.exp, iat: c.iat },
    ));
}

/// Expiry boundary: verification is exact about the expiry second. A
/// well-signed token is `Expired` from the second its expiry names on, and
/// yields its claims at any strictly earlier time; a token that fails the
/// signature check is `Invalid` at every time.
pub proof fn lemma_expiry_boundary(key: Seq<u8>, token: Seq<char>, now: int)
    ensures
        match claims_of(key, token) {
            Some(c) => spec_verify(key, token, now) == if c.exp <= now {
                Err::<ClaimsView, TokenError>(TokenError::Expired)
            } else {
                Ok::<ClaimsView, TokenError>(c)
            },
            None => spec_verify(key, token, now) == Err::<ClaimsView, TokenError>(
                TokenError::Invalid,
            ),
        },
{
}

/// Relies on `chrono::Utc::now` for the current Unix timestamp in seconds;
/// nothing is promised of the clock's value.
#[verifier::external_body]
fn current_timestamp() -> i64 {
    chrono::Utc::now().timestamp()
}

/// The current Unix timestamp in seconds. Time has no contract: nothing is
/// stated of the value beyond its type.
pub fn now_seconds() -> i64 {
    current_timestamp()
}

} // verus!
