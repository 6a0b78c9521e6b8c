use vstd::prelude::*;

use crate::errors::SessionError;

verus! {

/// The issuer claim, a fixed constant identifying this client.
pub open spec fn spec_issuer() -> Seq<char> {
    "recog"@
}

/// The subject claim, a fixed constant identifying the calling principal.
pub open spec fn spec_subject() -> Seq<char> {
    "akmitrich"@
}

/// The audience claim, a fixed constant identifying the target service.
pub open spec fn spec_audience() -> Seq<char> {
    "tinkoff.cloud.stt"@
}

/// The two inputs the token issuer needs: the API key identifier and the
/// decoded secret key. Loaded once per process and passed in explicitly;
/// no component looks credentials up ambiently.
#[derive(Debug)]
pub struct Credentials {
    pub api_key_id: String,
    pub secret_key: Vec<u8>,
}

impl Credentials {
    /// Credentials from already-decoded key material.
    pub fn new(api_key_id: String, secret_key: Vec<u8>) -> (c: Credentials)
        ensures
            c.api_key_id == api_key_id,
            c.secret_key == secret_key,
    {
        Credentials { api_key_id, secret_key }
    }

    /// Credentials from the two environment-style inputs: the key identifier
    /// and the base64-encoded secret. Malformed key material is rejected with
    /// the signing error, exactly when the encoding does not decode.
    pub fn from_base64(api_key_id: String, secret_base64: &str) -> (r: Result<
        Credentials,
        SessionError,
    >)
        ensures
            base64_standard_decode(secret_base64@) is Some ==> (r matches Ok(c)
                && c.api_key_id == api_key_id
                && Some(c.secret_key@) == base64_standard_decode(secret_base64@)),
            base64_standard_decode(secret_base64@) is None ==> (r matches Err(e)
                && e == SessionError::Signing),
    {
        match decode_base64_standard(secret_base64) {
            Ok(bytes) => Ok(Credentials { api_key_id, secret_key: bytes }),
            Err(_) => Err(SessionError::Signing),
        }
    }
}

/// A short-lived signed authentication token. Created fresh per session,
/// never persisted, and valid only while `now < expiry`.
#[derive(Debug)]
pub struct Token {
    /// The key identifier claim, so the service can select the matching
    /// secret.
    pub key_id: String,
    /// Unix time, in seconds, past which the service rejects the token.
    pub expiry: i64,
    /// The signed, encoded token, carried as a bearer credential.
    pub jwt: String,
}

impl Token {
    /// Whether the token is still valid at the given Unix time.
    pub fn is_valid_at(&self, now: i64) -> (b: bool)
        ensures
            b == (now < self.expiry),
    {
        now < self.expiry
    }
}

/// Produces a short-lived signed token from the credentials. Deterministic
/// given a fixed clock; callers regenerate per session rather than reuse.
#[derive(Debug)]
pub struct TokenIssuer {
    pub credentials: Credentials,
}

impl TokenIssuer {
    /// The expiry for a token issued at `now`: 60 seconds later, saturating
    /// at the largest representable timestamp.
    pub open spec fn expiry_for(now: i64) -> i64 {
        if now + 60 <= i64::MAX {
            (now + 60) as i64
        } else {
            i64::MAX
        }
    }

    pub fn new(credentials: Credentials) -> (t: TokenIssuer)
        ensures
            t.credentials == credentials,
    {
        TokenIssuer { credentials }
    }

    /// Issues the token for a session opened at the given Unix time. The
    /// claims are the fixed issuer, subject and audience, the expiry 60
    /// seconds past `now`, and the key identifier from the credentials.
    pub fn issue_at(&self, now: i64) -> (t: Token)
        ensures
            t.key_id == self.credentials.api_key_id,
            t.expiry == Self::expiry_for(now),
            t.jwt@ == jwt_hs256(
                self.credentials.api_key_id@,
                spec_issuer(),
                spec_subject(),
                spec_audience(),
                Self::expiry_for(now) as int,
                self.credentials.secret_key@,
            ),
    {
        let exp: i64 = if now <= i64::MAX - 60 {
            now + 60
        } else {
            i64::MAX
        };
        let jwt = sign_hs256_jwt(
            self.credentials.api_key_id.as_str(),
            "recog",
            "akmitrich",
            "tinkoff.cloud.stt",
            exp,
            self.credentials.secret_key.as_slice(),
        );
        let key_id = self.credentials.api_key_id.clone();
        Token { key_id, expiry: exp, jwt }
    }

    /// Issues a token whose expiry is 60 seconds past the current time, as
    /// read from the clock now.
    pub fn issue(&self) -> (t: Token)
        ensures
            t.key_id == self.credentials.api_key_id,
            t.jwt@ == jwt_hs256(
                self.credentials.api_key_id@,
                spec_issuer(),
                spec_subject(),
                spec_audience(),
                t.expiry as int,
                self.credentials.secret_key@,
            ),
    {
        let now = unix_now_seconds();
        self.issue_at(now)
    }
}

/// Law: token issuing is deterministic given a fixed clock. Two issuers over
/// equal credentials produce, for the same issuing time, the same token.
pub proof fn lemma_issue_deterministic(a: TokenIssuer, b: TokenIssuer, now: i64)
    requires
        a.credentials.api_key_id@ == b.credentials.api_key_id@,
        a.credentials.secret_key@ == b.credentials.secret_key@,
    ensures
        jwt_hs256(
            a.credentials.api_key_id@,
            spec_issuer(),
            spec_subject(),
            spec_audience(),
            TokenIssuer::expiry_for(now) as int,
            a.credentials.secret_key@,
        ) == jwt_hs256(
            b.credentials.api_key_id@,
            spec_issuer(),
            spec_subject(),
            spec_audience(),
            TokenIssuer::expiry_for(now) as int,
            b.credentials.secret_key@,
        ),
{
}

/// What base64's standard-alphabet decoding yields: `Some` bytes where the
/// input is a valid encoding, `None` where it is rejected. Depends on the
/// input characters alone.
pub uninterp spec fn base64_standard_decode(s: Seq<char>) -> Option<Seq<u8>>;

#[verifier::external_type_specification]
#[verifier::external_body]
pub struct ExDecodeError(base64::DecodeError);

/// Relies on base64::Engine::decode with the standard engine
/// (base64::engine::general_purpose::STANDARD): the call either yields the
/// bytes the input encodes or rejects the input, depending on nothing but
/// the input itself.
#[verifier::external_body]
fn decode_base64_standard(s: &str) -> (r: Result<Vec<u8>, base64::DecodeError>)
    ensures
        r matches Ok(b) ==> base64_standard_decode(s@) == Some(b@),
        r is Err ==> base64_standard_decode(s@) is None,
{
    base64::Engine::decode(&base64::engine::general_purpose::STANDARD, s)
}

/// What jsonwebtoken produces for an HS256 token with the given key
/// identifier, fixed claims, expiry and secret: a function of those
/// arguments alone.
pub uninterp spec fn jwt_hs256(
    kid: Seq<char>,
    iss: Seq<char>,
    sub: Seq<char>,
    aud: Seq<char>,
    exp: int,
    secret: Seq<u8>,
) -> Seq<char>;

/// Relies on jsonwebtoken::encode with Algorithm::HS256 and
/// EncodingKey::from_secret: the key family always matches the algorithm,
/// serializing these string and integer claims cannot fail, and HMAC signing
/// always succeeds, so the call returns the encoded token, a function of its
/// arguments alone.
#[verifier::external_body]
fn sign_hs256_jwt(kid: &str, iss: &str, sub: &str, aud: &str, exp: i64, secret: &[u8]) -> (r:
    String)
    ensures
        r@ == jwt_hs256(kid@, iss@, sub@, aud@, exp as int, secret@),
{
    let mut claims = serde_json::Map::new();
    claims.insert(String::from("iss"), serde_json::Value::from(iss));
    claims.insert(String::from("sub"), serde_json::Value::from(sub));
    claims.insert(String::from("aud"), serde_json::Value::from(aud));
    claims.insert(String::from("exp"), serde_json::Value::from(exp));
    let mut header = jsonwebtoken::Header::new(jsonwebtoken::Algorithm::HS256);
    header.kid = Some(kid.to_owned());
    let key = jsonwebtoken::EncodingKey::from_secret(secret);
    jsonwebtoken::encode(&header, &serde_json::Value::Object(claims), &key).unwrap()
}

/// Relies on chrono::Local::now and chrono::DateTime::timestamp for the
/// current Unix time in whole seconds. Nothing is promised of the value: it
/// depends on the clock.
#[verifier::external_body]
fn unix_now_seconds() -> (r: i64) {
    chrono::Local::now().timestamp()
}

} // verus!
