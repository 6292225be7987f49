use vstd::prelude::*;

verus! {

/// Decoded payload of a bearer token: subject (username), role name, and
/// absolute expiry as a unix timestamp in seconds.
pub struct Claims {
    pub sub: String,
    pub group: String,
    pub exp: usize,
}

/// Fixed validity window of an issued token, in seconds: 24 hours.
pub const TOKEN_LIFETIME_SECS: usize = 86400;

/// What jsonwebtoken's `encode` returns for an HS256 token over the claims
/// `{sub, group, exp}` and a secret: a function of those alone.
pub uninterp spec fn jwt_of(sub: Seq<char>, group: Seq<char>, exp: int, secret: Seq<u8>) -> Seq<char>;

/// What jsonwebtoken's `decode` returns for a token and a secret when expiry
/// checking is turned off: the embedded `{sub, group, exp}` claims when the
/// token is well formed and its HS256 signature matches the secret, `None`
/// otherwise.  A function of the token and the secret alone.
pub uninterp spec fn jwt_claims(token: Seq<char>, secret: Seq<u8>) -> Option<Claims>;

/// The error type of the jsonwebtoken crate, carried through the wrapper.
#[verifier::external_type_specification]
#[verifier::external_body]
pub struct ExJwtError(jsonwebtoken::errors::Error);

/// A token is good at time `now` under a secret when it decodes and its
/// expiry lies strictly in the future.
pub open spec fn token_valid(token: Seq<char>, now: usize, secret: Seq<u8>) -> bool {
    jwt_claims(token, secret) matches Some(c) && c.exp > now
}

/// The subject a decodable token speaks for.
pub open spec fn token_subject(token: Seq<char>, secret: Seq<u8>) -> Seq<char> {
    match jwt_claims(token, secret) {
        Some(c) => c.sub@,
        None => Seq::empty(),
    }
}

/// The role name a decodable token carries.
pub open spec fn token_group(token: Seq<char>, secret: Seq<u8>) -> Seq<char> {
    match jwt_claims(token, secret) {
        Some(c) => c.group@,
        None => Seq::empty(),
    }
}

/// Relies on jsonwebtoken::encode with a default (HS256) header: the token is
/// a deterministic function of the claims and the secret, and decoding it
/// with the same secret (signature check; expiry aside) yields the claims it
/// was built from.  For this call shape the encode cannot fail: an HMAC key
/// from a raw secret accepts any length, HMAC-SHA256 signing is infallible,
/// and serializing these three claims cannot error — so success is owed.
#[verifier::external_body]
fn encode_jwt(sub: &str, group: &str, exp: usize, secret: &[u8]) -> (r: Result<
    String,
    jsonwebtoken::errors::Error,
>)
    ensures
        r is Ok,
        r matches Ok(t) ==> ({
            &&& t@ == jwt_of(sub@, group@, exp as int, secret@)
            &&& jwt_claims(t@, secret@) matches Some(c) && c.sub@ == sub@ && c.group@ == group@
                && c.exp == exp
        }),
{
    let mut payload = serde_json::Map::new();
    payload.insert("sub".to_owned(), serde_json::Value::String(sub.to_owned()));
    payload.insert("group".to_owned(), serde_json::Value::String(group.to_owned()));
    payload.insert("exp".to_owned(), serde_json::Value::from(exp as u64));
    jsonwebtoken::encode(
        &jsonwebtoken::Header::default(),
        &serde_json::Value::Object(payload),
        &jsonwebtoken::EncodingKey::from_secret(secret),
    )
}

/// Relies on jsonwebtoken::decode over HS256 with expiry checking turned
/// off, so that the outcome depends on the token and the secret alone;
/// expiry is evaluated by the verified caller.  `None` covers everything the
/// default checks apart from expiry reject: a bad signature, a malformed
/// token, a missing claim, or a spec claim (such as an audience) the default
/// validation refuses.
#[verifier::external_body]
fn decode_jwt(token: &str, secret: &[u8]) -> (r: Option<Claims>)
    ensures
        r == jwt_claims(token@, secret@),
{
    let mut validation = jsonwebtoken::Validation::default();
    validation.validate_exp = false;
    let data = match jsonwebtoken::decode::<serde_json::Value>(
        token,
        &jsonwebtoken::DecodingKey::from_secret(secret),
        &validation,
    ) {
        Ok(d) => d,
        Err(_) => return None,
    };
    let sub = data.claims.get("sub")?.as_str()?.to_owned();
    let group = data.claims.get("group")?.as_str()?.to_owned();
    let exp = data.claims.get("exp")?.as_u64()?;
    Some(Claims { sub, group, exp: exp as usize })
}

/// Issues a signed token for `username` carrying the given role name,
/// expiring `TOKEN_LIFETIME_SECS` after `now`.  Signing a well-formed claim
/// set with a raw secret cannot fail, so a token is always returned; a
/// missing secret is a fatal configuration error the caller must rule out
/// before serving traffic, not a per-request outcome.
pub fn create_jwt(username: &str, group: &str, now: usize, secret: &[u8]) -> (t: String)
    requires
        now + TOKEN_LIFETIME_SECS <= usize::MAX,
    ensures
        t@ == jwt_of(username@, group@, now + TOKEN_LIFETIME_SECS, secret@),
        jwt_claims(t@, secret@) matches Some(c) && c.sub@ == username@ && c.group@ == group@
            && c.exp == now + TOKEN_LIFETIME_SECS,
        token_valid(t@, now, secret@),
{
    let exp = now + TOKEN_LIFETIME_SECS;
    match encode_jwt(username, group, exp, secret) {
        Ok(t) => t,
        Err(_) => unreached(),
    }
}

/// Checks signature and expiry.  A signature mismatch, a malformed token and
/// a past expiry all yield `None` alike: the caller cannot tell which check
/// failed, and the outcome is deterministic in the token, the time and the
/// secret.
pub fn verify_jwt(token: &str, now: usize, secret: &[u8]) -> (r: Option<Claims>)
    ensures
        r matches Some(c) ==> jwt_claims(token@, secret@) == Some(c) && c.exp > now,
        (r is Some) == token_valid(token@, now, secret@),
{
    match decode_jwt(token, secret) {
        Some(c) => if c.exp > now {
            Some(c)
        } else {
            None
        },
        None => None,
    }
}

} // verus!
