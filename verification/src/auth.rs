//! The token authority: issues and validates compact signed bearer tokens
//! binding a user identity and an expiry.
//!
//! The signing secret is decoded from configuration once, at construction,
//! and held read-only for the life of the process. Expiry is judged against
//! a caller-supplied clock value, never against an ambient clock, so a token
//! is valid exactly while `now < exp`.

use vstd::prelude::*;

use crate::config::Config;
use crate::errors::AppError;

verus! {

/// How long an issued token stays valid, in seconds: 24 hours.
pub const TOKEN_VALIDITY_SECS: u64 = 86400;

/// The claims carried by a bearer token.
#[derive(Debug, PartialEq, Eq)]
pub struct Claims {
    /// The authenticated user's record id.
    pub user_id: String,
    /// Unix-epoch expiry time, in seconds; the token is valid strictly
    /// before this instant.
    pub exp: u64,
    /// Unix-epoch issuance time, in seconds.
    pub iat: u64,
}

impl Claims {
    /// Claims for `user_id`, issued at `now` and expiring a validity window
    /// later.
    pub fn new(user_id: &String, now: u64) -> (c: Claims)
        requires
            now <= u64::MAX - TOKEN_VALIDITY_SECS,
        ensures
            c.user_id@ == user_id@,
            c.iat == now,
            c.exp == now + TOKEN_VALIDITY_SECS,
    {
        Claims { user_id: String::clone(user_id), exp: now + TOKEN_VALIDITY_SECS, iat: now }
    }
}

/// A pair of tokens as some transports hand them out; only the access token
/// is produced by the current operations.
#[derive(Debug)]
pub struct AuthBody {
    pub access_token: String,
    pub refresh_token: String,
}

/// The bytes that standard base64 decoding of `s` yields, or nothing when
/// `s` is not valid base64. Names the outcome of base64's `decode`, a
/// function of the string alone.
pub uninterp spec fn b64_decoded(s: Seq<char>) -> Option<Seq<u8>>;

/// The serialized signed token for these claims under `key`. Names the
/// outcome of `jsonwebtoken::encode` with the default HS256 header, which
/// depends on the claims and the key alone.
pub uninterp spec fn jwt_token(user_id: Seq<char>, exp: u64, iat: u64, key: Seq<u8>) -> Seq<char>;

/// The claims that `jsonwebtoken::decode` under `key` recovers from
/// `token`, or nothing when the token is malformed, not signed with `key`,
/// or does not carry the expected claims. Expiry is not judged here. A
/// deterministic function of the token and the key.
pub uninterp spec fn jwt_decoded(token: Seq<char>, key: Seq<u8>) -> Option<(Seq<char>, u64, u64)>;

/// Relies on base64's standard-alphabet `decode`.
#[verifier::external_body]
fn base64_decode(s: &String) -> (r: Option<Vec<u8>>)
    ensures
        r is Some <==> b64_decoded(s@) is Some,
        r matches Some(v) ==> Some(v@) == b64_decoded(s@),
{
    match base64::Engine::decode(&base64::engine::general_purpose::STANDARD, s.as_str()) {
        Ok(v) => Some(v),
        Err(_) => None,
    }
}

/// Relies on `jsonwebtoken::encode` with the default HS256 header: the
/// token is a deterministic function of the claims and the key, and the
/// crate's own `decode` under the same key recovers exactly these claims.
/// Encoding succeeds on every input: with an HMAC secret the key family
/// always matches HS256, the HMAC accepts a key of any length, signing is
/// infallible, and serializing the string- and integer-valued claims
/// cannot fail.
#[verifier::external_body]
fn jwt_encode(user_id: &String, exp: u64, iat: u64, key: &Vec<u8>) -> (r: Result<String, ()>)
    ensures
        r is Ok,
        r matches Ok(t) ==> t@ == jwt_token(user_id@, exp, iat, key@) && jwt_decoded(t@, key@)
            == Some((user_id@, exp, iat)),
{
    let mut claims = serde_json::Map::new();
    claims.insert("user_id".to_owned(), serde_json::Value::String(user_id.clone()));
    claims.insert("exp".to_owned(), serde_json::Value::from(exp));
    claims.insert("iat".to_owned(), serde_json::Value::from(iat));
    let key = jsonwebtoken::EncodingKey::from_secret(key.as_slice());
    let body = serde_json::Value::Object(claims);
    match jsonwebtoken::encode(&jsonwebtoken::Header::default(), &body, &key) {
        Ok(t) => Ok(t),
        Err(_) => Err(()),
    }
}

/// Relies on `jsonwebtoken::decode` restricted to HS256, with expiry
/// validation turned off: the caller judges expiry against its own clock.
/// The outcome is a deterministic function of the token and the key.
#[verifier::external_body]
fn jwt_decode(token: &String, key: &Vec<u8>) -> (r: Result<(String, u64, u64), ()>)
    ensures
        r is Ok <==> jwt_decoded(token@, key@) is Some,
        r matches Ok(c) ==> jwt_decoded(token@, key@) == Some((c.0@, c.1, c.2)),
{
    let mut v = jsonwebtoken::Validation::new(jsonwebtoken::Algorithm::HS256);
    v.validate_exp = false;
    let k = jsonwebtoken::DecodingKey::from_secret(key.as_slice());
    let c = match jsonwebtoken::decode::<serde_json::Value>(token.as_str(), &k, &v) {
        Ok(d) => d.claims,
        Err(_) => return Err(()),
    };
    match (c.get("user_id").and_then(|x| x.as_str()), c.get("exp").and_then(|x| x.as_u64())) {
        (Some(u), Some(e)) => match c.get("iat").and_then(|x| x.as_u64()) {
            Some(i) => Ok((u.to_owned(), e, i)),
            None => Err(()),
        },
        _ => Err(()),
    }
}

/// The blank characters trimmed around a bearer token, as they occur in an
/// `Authorization` header.
pub open spec fn is_blank(c: char) -> bool {
    c == ' ' || c == '\t' || c == '\r' || c == '\n'
}

/// `s` without its leading blanks.
pub open spec fn trim_left(s: Seq<char>) -> Seq<char>
    decreases s.len(),
{
    if s.len() > 0 && is_blank(s[0]) {
        trim_left(s.drop_first())
    } else {
        s
    }
}

/// `s` without its trailing blanks.
pub open spec fn trim_right(s: Seq<char>) -> Seq<char>
    decreases s.len(),
{
    if s.len() > 0 && is_blank(s.last()) {
        trim_right(s.drop_last())
    } else {
        s
    }
}

/// The bearer token carried by an `Authorization` header value: what
/// follows a literal `Bearer ` prefix, blank-trimmed, provided that leaves
/// anything.
pub open spec fn spec_bearer_token(h: Seq<char>) -> Option<Seq<char>> {
    if h.len() >= 7 && h.take(7) == "Bearer "@ {
        let t = trim_right(trim_left(h.skip(7)))
        ;
        if t.len() > 0 {
            Some(t)
        } else {
            None
        }
    } else {
        None
    }
}

/// What verification yields for `token` under `key` when the clock reads
/// `now`: the decoded claims while `now` lies strictly before their expiry,
/// and nothing for a token that does not decode or has expired.
pub open spec fn spec_verify(token: Seq<char>, key: Seq<u8>, now: u64) -> Option<
    (Seq<char>, u64, u64),
> {
    match jwt_decoded(token, key) {
        None => None,
        Some((user_id, exp, iat)) => if now < exp {
            Some((user_id, exp, iat))
        } else {
            None
        },
    }
}

/// The token authority.
pub struct Auth {
    /// The decoded signing secret, read-only for the process lifetime.
    pub private_key: Vec<u8>,
}

impl Auth {
    /// Decodes the base64 signing secret from configuration. A secret that
    /// does not decode is fatal for initialization; the embedding program
    /// must abort on the error rather than continue.
    pub fn new(config: &Config) -> (r: Result<Auth, AppError>)
        ensures
            r is Ok <==> b64_decoded(config.jwt_private_key@) is Some,
            r matches Ok(a) ==> Some(a.private_key@) == b64_decoded(config.jwt_private_key@),
            r matches Err(e) ==> e is InternalError,
    {
        match base64_decode(&config.jwt_private_key) {
            Some(key) => Ok(Auth { private_key: key }),
            None => Err(AppError::InternalError),
        }
    }

    /// Issues a signed token for `user_id`, valid from `now` for the
    /// validity window. Issuance always succeeds: signing with this
    /// authority's symmetric secret cannot fail, so the `TokenCreation`
    /// class is never produced here.
    pub fn generate_jwt_token(&self, user_id: &String, now: u64) -> (r: Result<String, AppError>)
        requires
            now <= u64::MAX - TOKEN_VALIDITY_SECS,
        ensures
            r matches Ok(t) && ({
                &&& t@ == jwt_token(user_id@, (now + TOKEN_VALIDITY_SECS) as u64, now, self.private_key@)
                &&& jwt_decoded(t@, self.private_key@) == Some(
                    (user_id@, (now + TOKEN_VALIDITY_SECS) as u64, now),
                )
            }),
    {
        let claims = Claims::new(user_id, now);
        match jwt_encode(&claims.user_id, claims.exp, claims.iat, &self.private_key) {
            Ok(t) => Ok(t),
            Err(()) => Err(AppError::TokenCreation),
        }
    }

    /// Checks the signature of `token` and judges its expiry against the
    /// caller's clock `now`: a token is accepted exactly when it decodes
    /// under this authority's secret and `now` lies strictly before its
    /// expiry; otherwise the error is `InvalidToken`.
    pub fn verify_token(&self, token: &String, now: u64) -> (r: Result<Claims, AppError>)
        ensures
            match spec_verify(token@, self.private_key@, now) {
                None => r == Err::<Claims, AppError>(AppError::InvalidToken),
                Some((user_id, exp, iat)) => r matches Ok(c) && c.user_id@ == user_id && c.exp
                    == exp && c.iat == iat,
            },
    {
        match jwt_decode(token, &self.private_key) {
            Ok(c) => {
                if now < c.1 {
                    Ok(Claims { user_id: c.0, exp: c.1, iat: c.2 })
                } else {
                    Err(AppError::InvalidToken)
                }
            },
            Err(()) => Err(AppError::InvalidToken),
        }
    }
}

/// Whether `c` is one of the blanks trimmed around a bearer token.
fn is_blank_char(c: char) -> (r: bool)
    ensures
        r == is_blank(c),
{
    c == ' ' || c == '\t' || c == '\r' || c == '\n'
}

/// Extracts the bearer token from an `Authorization` header value: the
/// blank-trimmed remainder after a literal `Bearer ` prefix, or nothing
/// when the prefix is absent or nothing follows it.
pub fn bearer_token(header: &str) -> (r: Option<String>)
    ensures
        r is Some <==> spec_bearer_token(header@) is Some,
        r matches Some(t) ==> Some(t@) == spec_bearer_token(header@),
{
    let n = header.unicode_len();
    proof {
        reveal_strlit("Bearer ");
    }
    if n < 7 {
        return None;
    }
    let mut i: usize = 0;
    while i < 7
        invariant
            0 <= i <= 7,
            n >= 7,
            n == header@.len(),
            forall|j: int| 0 <= j < i ==> header@[j] == #[trigger] ("Bearer "@)[j],
        decreases 7 - i,
    {
        proof {
            reveal_strlit("Bearer ");
        }
        if header.get_char(i) != "Bearer ".get_char(i) {
            proof {
                assert(header@.take(7)[i as int] != ("Bearer "@)[i as int]);
            }
            return None;
        }
        i = i + 1;
    }
    assert(header@.take(7) =~= "Bearer "@);
    let mut lo: usize = 7;
    while lo < n && is_blank_char(header.get_char(lo))
        invariant
            7 <= lo <= n,
            n == header@.len(),
            trim_left(header@.skip(7)) == trim_left(header@.skip(lo as int)),
        decreases n - lo,
    {
        proof {
            assert(header@.skip(lo as int).drop_first() =~= header@.skip(lo as int + 1));
        }
        lo = lo + 1;
    }
    proof {
        if lo < n {
            assert(trim_left(header@.skip(lo as int)) == header@.skip(lo as int));
        } else {
            assert(header@.skip(lo as int) =~= Seq::<char>::empty());
        }
    }
    if lo == n {
        return None;
    }
    let mut hi: usize = n;
    while hi > lo && is_blank_char(header.get_char(hi - 1))
        invariant
            lo < hi <= n,
            n == header@.len(),
            lo < n,
            !is_blank(header@[lo as int]),
            trim_right(header@.skip(lo as int)) == trim_right(header@.subrange(lo as int, hi as int)),
        decreases hi - lo,
    {
        proof {
            assert(header@.subrange(lo as int, hi as int).drop_last() =~= header@.subrange(
                lo as int,
                hi as int - 1,
            ));
        }
        hi = hi - 1;
    }
    proof {
        assert(header@.skip(lo as int) =~= header@.subrange(lo as int, n as int));
        assert(hi > lo);
        assert(trim_right(header@.subrange(lo as int, hi as int)) == header@.subrange(
            lo as int,
            hi as int,
        ));
    }
    Some(header.substring_char(lo, hi).to_owned())
}

} // verus!
