use vstd::prelude::*;
use crate::error::AuthError;

verus! {

/// Lifetime of an issued token, in seconds.
pub const TOKEN_TTL_SECONDS: i64 = 86400;

/// The signed payload of a token: the principal's id and email, and the
/// expiry in seconds since the Unix epoch.
#[derive(Debug)]
pub struct Claims {
    pub sub: u128,
    pub email: String,
    pub exp: u64,
}

#[verifier::external_type_specification]
#[verifier::external_body]
pub struct ExJwtError(jsonwebtoken::errors::Error);

/// Lower-case hexadecimal digit of a value below 16.
pub open spec fn hex_digit(v: nat) -> char {
    seq!['0', '1', '2', '3', '4', '5', '6', '7', '8', '9', 'a', 'b', 'c', 'd', 'e', 'f'][(v % 16) as int]
}

/// The last `n` hexadecimal digits of `v`, most significant first.
pub open spec fn hex_digits(v: nat, n: nat) -> Seq<char>
    decreases n,
{
    if n == 0 {
        Seq::empty()
    } else {
        hex_digits(v / 16, (n - 1) as nat).push(hex_digit(v % 16))
    }
}

/// The hyphenated text of a 128-bit identifier: its 32 lower-case
/// hexadecimal digits in groups of 8, 4, 4, 4 and 12.
pub open spec fn uuid_hyphenated(id: u128) -> Seq<char> {
    let h = hex_digits(id as nat, 32);
    h.subrange(0, 8) + seq!['-'] + h.subrange(8, 12) + seq!['-'] + h.subrange(12, 16) + seq!['-']
        + h.subrange(16, 20) + seq!['-'] + h.subrange(20, 32)
}

/// The identifier a text parses to, if it parses.
pub uninterp spec fn uuid_parsed(text: Seq<char>) -> Option<u128>;

/// The HS256 token for the claims `sub`, `email` and `exp` under a secret.
pub uninterp spec fn jwt_hs256(sub: Seq<char>, email: Seq<char>, exp: u64, secret: Seq<char>) -> Seq<
    char,
>;

/// The `sub`, `email` and `exp` claims of a token whose HS256 signature
/// checks under the secret and which carries an `exp` claim; `None` for any
/// other token. A claim that is absent or of another JSON type reads as
/// `None`.
pub uninterp spec fn jwt_payload(token: Seq<char>, secret: Seq<char>) -> Option<
    (Option<Seq<char>>, Option<Seq<char>>, Option<u64>),
>;

/// Relies on uuid::Uuid's `Display`, which writes the hyphenated lower-case
/// form.
#[verifier::external_body]
fn uuid_text(id: u128) -> (r: String)
    ensures
        r@ == uuid_hyphenated(id),
{
    uuid::Uuid::from_u128(id).to_string()
}

/// Relies on uuid::Uuid::parse_str, a function of the text alone, which
/// reads back the hyphenated form that `Display` writes.
#[verifier::external_body]
fn parse_uuid(text: &str) -> (r: Option<u128>)
    ensures
        r == uuid_parsed(text@),
        forall|id: u128| text@ == #[trigger] uuid_hyphenated(id) ==> r == Some(id),
{
    uuid::Uuid::parse_str(text).ok().map(|u| u.as_u128())
}

/// Relies on jsonwebtoken::encode with the default header (HS256) over the
/// claims `sub`, `email`, `exp`: the token is a function of those and the
/// secret. The header's algorithm matches an HMAC key, the claims map always
/// serializes and HMAC signing cannot fail, so encoding succeeds.
#[verifier::external_body]
fn sign_token(sub: &str, email: &str, exp: u64, secret: &str) -> (r: Result<
    String,
    jsonwebtoken::errors::Error,
>)
    ensures
        r is Ok,
        r->Ok_0@ == jwt_hs256(sub@, email@, exp, secret@),
{
    let claims = std::collections::BTreeMap::from([
        ("sub", serde_json::Value::from(sub)),
        ("email", serde_json::Value::from(email)),
        ("exp", serde_json::Value::from(exp)),
    ]);
    let key = jsonwebtoken::EncodingKey::from_secret(secret.as_bytes());
    jsonwebtoken::encode(&jsonwebtoken::Header::default(), &claims, &key)
}

pub open spec fn opt_view(o: Option<String>) -> Option<Seq<char>> {
    match o {
        Some(s) => Some(s@),
        None => None,
    }
}

/// Relies on jsonwebtoken::decode with HS256, its clock check switched off
/// (expiry is judged by the caller): the outcome is a function of the token
/// and the secret. A token that `sign_token` made under the same secret
/// checks and reads back its three claims: it carries no audience, issuer or
/// not-before claim to refuse.
#[verifier::external_body]
fn decode_token(token: &str, secret: &str) -> (r: Result<
    (Option<String>, Option<String>, Option<u64>),
    jsonwebtoken::errors::Error,
>)
    ensures
        match r {
            Ok((s, e, x)) => jwt_payload(token@, secret@) == Some((opt_view(s), opt_view(e), x)),
            Err(_) => jwt_payload(token@, secret@) is None,
        },
        forall|s: Seq<char>, e: Seq<char>, x: u64|
            token@ == #[trigger] jwt_hs256(s, e, x, secret@) ==> (r is Ok && opt_view(r->Ok_0.0)
                == Some(s) && opt_view(r->Ok_0.1) == Some(e) && r->Ok_0.2 == Some(x)),
{
    let mut validation = jsonwebtoken::Validation::default();
    validation.validate_exp = false;
    let key = jsonwebtoken::DecodingKey::from_secret(secret.as_bytes());
    let c = jsonwebtoken::decode::<serde_json::Value>(token, &key, &validation)?.claims;
    Ok((c["sub"].as_str().map(String::from), c["email"].as_str().map(String::from), c["exp"].as_u64()))
}

/// A credential expiring at `exp` is no longer valid at `now`.
pub open spec fn expired(exp: u64, now: i64) -> bool {
    exp as int <= now as int
}

/// Judges decoded claims at time `now`: all three must be present and the
/// subject must be an identifier, else the token is invalid; a well-formed
/// token past its expiry is expired.
pub open spec fn verdict(
    sub: Option<Seq<char>>,
    email: Option<Seq<char>>,
    exp: Option<u64>,
    now: i64,
    r: Result<Claims, AuthError>,
) -> bool {
    match (sub, email, exp) {
        (Some(s), Some(e), Some(x)) => match uuid_parsed(s) {
            None => r == Err::<Claims, AuthError>(AuthError::InvalidToken),
            Some(id) => if expired(x, now) {
                r == Err::<Claims, AuthError>(AuthError::TokenExpired)
            } else {
                r matches Ok(c) && c.sub == id && c.email@ == e && c.exp == x
            },
        },
        _ => r == Err::<Claims, AuthError>(AuthError::InvalidToken),
    }
}

/// The claims are still valid at `now`: rejects them as expired otherwise.
pub fn check_expiry(claims: Claims, now: i64) -> (r: Result<Claims, AuthError>)
    ensures
        expired(claims.exp, now) ==> r == Err::<Claims, AuthError>(AuthError::TokenExpired),
        !expired(claims.exp, now) ==> r == Ok::<Claims, AuthError>(claims),
{
    if claims.exp as i128 <= now as i128 {
        Err(AuthError::TokenExpired)
    } else {
        Ok(claims)
    }
}

/// Builds claims out of decoded fields and judges them at `now`.
pub fn claims_from_parts(sub: Option<String>, email: Option<String>, exp: Option<u64>, now: i64) -> (r:
    Result<Claims, AuthError>)
    ensures
        verdict(opt_view(sub), opt_view(email), exp, now, r),
        forall|id: u128|
            opt_view(sub) == Some(#[trigger] uuid_hyphenated(id)) ==> uuid_parsed(uuid_hyphenated(id))
                == Some(id),
{
    match sub {
        None => Err(AuthError::InvalidToken),
        Some(s) => {
            let parsed = parse_uuid(s.as_str());
            match (email, exp, parsed) {
                (Some(e), Some(x), Some(id)) => check_expiry(Claims { sub: id, email: e, exp: x }, now),
                _ => Err(AuthError::InvalidToken),
            }
        },
    }
}

/// What verifying `token` under `secret` at `now` gives.
pub open spec fn verification(
    token: Seq<char>,
    secret: Seq<char>,
    now: i64,
    r: Result<Claims, AuthError>,
) -> bool {
    match jwt_payload(token, secret) {
        None => r == Err::<Claims, AuthError>(AuthError::InvalidToken),
        Some((s, e, x)) => verdict(s, e, x, now, r),
    }
}

/// What verifying gives for a token that was issued under the same secret:
/// its claims while it is valid, `TokenExpired` once its expiry has passed.
pub open spec fn issued_verification(
    token: Seq<char>,
    secret: Seq<char>,
    now: i64,
    r: Result<Claims, AuthError>,
) -> bool {
    forall|id: u128, e: Seq<char>, x: u64|
        token == #[trigger] jwt_hs256(uuid_hyphenated(id), e, x, secret) ==> if expired(x, now) {
            r == Err::<Claims, AuthError>(AuthError::TokenExpired)
        } else {
            r matches Ok(c) && c.sub == id && c.email@ == e && c.exp == x
        }
}

/// Verifies a token under a secret at time `now`: a bad signature or a
/// malformed token is `InvalidToken`, a good one past its expiry is
/// `TokenExpired`.
pub fn verify(token: &str, secret: &str, now: i64) -> (r: Result<Claims, AuthError>)
    ensures
        verification(token@, secret@, now, r),
        issued_verification(token@, secret@, now, r),
{
    match decode_token(token, secret) {
        Err(_) => Err(AuthError::InvalidToken),
        Ok((s, e, x)) => claims_from_parts(s, e, x, now),
    }
}

/// Signs claims under a secret.
pub fn issue(claims: &Claims, secret: &str) -> (r: Result<String, AuthError>)
    ensures
        r matches Ok(t) && t@ == jwt_hs256(uuid_hyphenated(claims.sub), claims.email@, claims.exp, secret@),
{
    let sub = uuid_text(claims.sub);
    match sign_token(sub.as_str(), claims.email.as_str(), claims.exp, secret) {
        Ok(t) => Ok(t),
        Err(_) => Err(AuthError::Internal(String::from_str("Failed to create token"))),
    }
}

/// Expiry of a token issued at `now`: a day later, and never before the
/// epoch.
pub open spec fn expiry_for(now: i64) -> u64 {
    if now + TOKEN_TTL_SECONDS < 0 {
        0
    } else {
        (now + TOKEN_TTL_SECONDS) as u64
    }
}

pub fn expiry_after(now: i64) -> (r: u64)
    ensures
        r == expiry_for(now),
{
    let t = now as i128 + TOKEN_TTL_SECONDS as i128;
    if t < 0 {
        0
    } else {
        t as u64
    }
}

/// A token issued under a secret, verified under the same secret once its
/// expiry has passed, is refused as expired; before that it gives back the
/// claims it was issued with.
pub proof fn lemma_issued_token_lifetime(
    token: Seq<char>,
    secret: Seq<char>,
    now: i64,
    r: Result<Claims, AuthError>,
    claims: Claims,
)
    requires
        issued_verification(token, secret, now, r),
        token == jwt_hs256(uuid_hyphenated(claims.sub), claims.email@, claims.exp, secret),
    ensures
        expired(claims.exp, now) ==> r == Err::<Claims, AuthError>(AuthError::TokenExpired),
        !expired(claims.exp, now) ==> (r matches Ok(c) && c.sub == claims.sub && c.email@
            == claims.email@ && c.exp == claims.exp),
{
    assert(token == jwt_hs256(uuid_hyphenated(claims.sub), claims.email@, claims.exp, secret));
}

/// A token whose signature checks but whose expiry is not after `now` is
/// refused as expired; one whose signature does not check is refused as
/// invalid.
pub proof fn lemma_verify_refusals(token: Seq<char>, secret: Seq<char>, now: i64, r: Result<
    Claims,
    AuthError,
>)
    requires
        verification(token, secret, now, r),
    ensures
        (jwt_payload(token, secret) matches Some((Some(s), Some(e), Some(x))) && uuid_parsed(s) is Some
            && expired(x, now)) ==> r == Err::<Claims, AuthError>(AuthError::TokenExpired),
        jwt_payload(token, secret) is None ==> r == Err::<Claims, AuthError>(AuthError::InvalidToken),
        r is Ok ==> (r matches Ok(c) && !expired(c.exp, now)),
{
}

} // verus!
