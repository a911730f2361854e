use vstd::prelude::*;
use crate::error::{AppError, ErrorKind};

verus! {

/// The claims that jsonwebtoken's `decode` (HS256, signature checked, expiry not
/// checked) finds in a token signed with the key: its subject and its expiry in
/// seconds since the epoch; `None` when the token is malformed or its signature
/// does not match.
pub uninterp spec fn jwt_claims(token: Seq<char>, key: Seq<u8>) -> Option<(Seq<char>, int)>;

/// Relies on `jsonwebtoken::encode` with the default HS256 header and a secret
/// key: the token carries the claims `sub` and `exp`, and `decode` with the same
/// key gives them back. With an HMAC key encoding always succeeds: the key family
/// matches the header, string-keyed claims always serialise, and HMAC signing
/// returns `Ok`.
#[verifier::external_body]
fn jwt_encode(sub: &str, exp: u64, key: &Vec<u8>) -> (r: Result<String, String>)
    ensures
        r is Ok,
        r matches Ok(t) ==> jwt_claims(t@, key@) == Some((sub@, exp as int)),
{
    let mut claims = std::collections::BTreeMap::new();
    claims.insert("sub", serde_json::Value::from(sub));
    claims.insert("exp", serde_json::Value::from(exp));
    let key = jsonwebtoken::EncodingKey::from_secret(key.as_slice());
    jsonwebtoken::encode(&jsonwebtoken::Header::default(), &claims, &key).map_err(|e| e.to_string())
}

/// Relies on `jsonwebtoken::decode` with HS256 validation and the expiry check
/// switched off: the signature is checked, and the `sub` and `exp` claims are read.
#[verifier::external_body]
fn jwt_decode(token: &str, key: &Vec<u8>) -> (r: Option<(String, u64)>)
    ensures
        r is Some <==> jwt_claims(token@, key@) is Some,
        r matches Some((s, e)) ==> jwt_claims(token@, key@) == Some((s@, e as int)),
{
    let mut validation = jsonwebtoken::Validation::new(jsonwebtoken::Algorithm::HS256);
    validation.validate_exp = false;
    let key = jsonwebtoken::DecodingKey::from_secret(key.as_slice());
    let data = jsonwebtoken::decode::<std::collections::BTreeMap<String, serde_json::Value>>(
        token, &key, &validation).ok()?;
    let sub = data.claims.get("sub")?.as_str()?.to_string();
    let exp = data.claims.get("exp")?.as_u64()?;
    Some((sub, exp))
}

/// The subject of a token whose claims are `claims`, if it has not expired at `now`.
/// A token stays valid up to and including its expiry second.
pub open spec fn live_subject(claims: Option<(Seq<char>, int)>, now: int) -> Option<Seq<char>> {
    match claims {
        Some((s, e)) => if now <= e {
            Some(s)
        } else {
            None
        },
        None => None,
    }
}

/// How long an issued token stays valid, in seconds.
pub const DEFAULT_TOKEN_TTL_SECS: u64 = 86400;

/// Issues and checks signed, time-bound identity tokens under one secret key.
pub struct TokenService {
    pub secret: Vec<u8>,
    pub ttl_secs: u64,
}

impl TokenService {
    pub fn new(secret: Vec<u8>) -> (t: TokenService)
        ensures
            t.secret@ == secret@,
            t.ttl_secs == DEFAULT_TOKEN_TTL_SECS,
    {
        TokenService { secret, ttl_secs: DEFAULT_TOKEN_TTL_SECS }
    }

    /// A token for `subject` that expires `ttl_secs` after `now` (seconds since
    /// the epoch).
    pub fn issue(&self, subject: &str, now: u64) -> (t: String)
        requires
            now + self.ttl_secs <= u64::MAX,
        ensures
            jwt_claims(t@, self.secret@) == Some((subject@, now + self.ttl_secs)),
    {
        jwt_encode(subject, now + self.ttl_secs, &self.secret).unwrap()
    }

    /// The subject of a token, if it was signed with this key and has not expired at
    /// `now`; an authentication error otherwise.
    pub fn verify(&self, token: &str, now: u64) -> (r: Result<String, AppError>)
        ensures
            r is Ok <==> live_subject(jwt_claims(token@, self.secret@), now as int) is Some,
            r matches Ok(s) ==> live_subject(jwt_claims(token@, self.secret@), now as int) == Some(
                s@,
            ),
            r matches Err(e) ==> e.spec_kind() == ErrorKind::Auth,
    {
        match jwt_decode(token, &self.secret) {
            None => Err(AppError::AuthError(String::from_str("Invalid token"))),
            Some((sub, exp)) => {
                if now <= exp {
                    Ok(sub)
                } else {
                    Err(AppError::AuthError(String::from_str("Token expired")))
                }
            },
        }
    }
}

/// The scheme word that precedes a token in an `Authorization` header.
pub open spec fn bearer_prefix() -> Seq<char> {
    "Bearer "@
}

/// The token carried by an `Authorization` header value of the form `Bearer <token>`.
pub fn bearer_token(header: &str) -> (r: Option<String>)
    ensures
        r is Some <==> header@.len() >= 7 && header@.take(7) == bearer_prefix(),
        r matches Some(t) ==> t@ == header@.skip(7),
{
    let prefix = "Bearer ";
    proof {
        reveal_strlit("Bearer ");
    }
    let n = header.unicode_len();
    if n < 7 {
        return None;
    }
    let mut i: usize = 0;
    while i < 7
        invariant
            i <= 7 <= n,
            n == header@.len(),
            prefix@ == bearer_prefix(),
            prefix@.len() == 7,
            header@.take(i as int) == prefix@.take(i as int),
        decreases 7 - i,
    {
        if header.get_char(i) != prefix.get_char(i) {
            proof {
                assert(header@.take(7)[i as int] != bearer_prefix()[i as int]);
            }
            return None;
        }
        proof {
            assert(header@.take(i + 1) =~= header@.take(i as int).push(header@[i as int]));
            assert(prefix@.take(i + 1) =~= prefix@.take(i as int).push(prefix@[i as int]));
        }
        i = i + 1;
    }
    proof {
        assert(prefix@.take(7) =~= prefix@);
    }
    Some(String::from_str(header.substring_char(7, n)))
}

/// A token issued for a subject gives that subject back until it expires, and
/// nothing after.
pub proof fn lemma_token_round_trip(token: Seq<char>, key: Seq<u8>, sub: Seq<char>, exp: int, now: int)
    requires
        jwt_claims(token, key) == Some((sub, exp)),
    ensures
        now <= exp ==> live_subject(jwt_claims(token, key), now) == Some(sub),
        now > exp ==> live_subject(jwt_claims(token, key), now) is None,
{
}

} // verus!
