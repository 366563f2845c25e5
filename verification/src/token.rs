//! Session tokens: compact signed tokens that carry a subject and the time
//! of issue, signed with HMAC-SHA-256 under one symmetric secret.
//!
//! Policy: a token is accepted only if its header names HMAC-SHA-256, both
//! claims are present and fit their types, and, where a maximum age is
//! configured, only while its age does not exceed it. A token that carries
//! an audience claim is refused, since this service names no audience; an
//! expiry claim inside the token is not looked at. Every refusal other than
//! a signature mismatch or an elapsed maximum age is reported as malformed.

use crate::utils::elapsed_seconds;
use vstd::prelude::*;

verus! {

/// `jsonwebtoken::errors::Error`, carried through as an opaque value.
#[verifier::external_type_specification]
#[verifier::external_body]
pub struct ExEncodeError(jsonwebtoken::errors::Error);

/// What a session token states: who it was issued to, and when.
#[derive(Clone, Copy, Debug, PartialEq, Eq, Structural)]
pub struct Claims {
    /// Numeric identifier of the user.
    pub sub: i32,
    /// Seconds since the Unix epoch at the time of issue.
    pub iat: usize,
}

/// Why a token was not accepted.
#[derive(Clone, Copy, Debug, PartialEq, Eq, Structural)]
pub enum TokenError {
    /// Not a token at all, one whose header names another algorithm, one
    /// that carries an audience claim, or one whose two claims are missing
    /// or out of range.
    Malformed,
    /// Well formed, but not signed with this secret.
    BadSignature,
    /// Signed and well formed, but older than the configured maximum age.
    Expired,
}

/// Signing did not produce a token.
#[derive(Clone, Copy, Debug, PartialEq, Eq, Structural)]
pub struct SigningFailed;

/// What the signature check and the decoding of a compact token gave,
/// before any policy is applied to the claims.
#[derive(Clone, Copy, Debug)]
pub enum Decoded {
    /// The signature matches. Each claim is present if the payload holds an
    /// integer of that name within the field's range.
    Payload { sub: Option<i64>, iat: Option<u64> },
    /// The token parses, but the signature is not the one this secret gives.
    BadSignature,
    /// The token was refused for any other reason: it does not parse, its
    /// header names another algorithm, or it carries an audience claim.
    Malformed,
}

/// Maximum age of a token under the default policy: one day.
pub const DEFAULT_MAX_AGE: u64 = 86400;

/// The compact token that signing the two claims with `secret` yields, or
/// `None` where signing fails.
pub uninterp spec fn compact_encoding(sub: i32, iat: u64, secret: Seq<u8>) -> Option<Seq<char>>;

/// What checking and decoding `token` against `secret` yields.
pub uninterp spec fn compact_decoding(token: Seq<char>, secret: Seq<u8>) -> Decoded;

/// Number of `.` separators in a token.
pub open spec fn dot_count(token: Seq<char>) -> nat {
    token.filter(|c: char| c == '.').len()
}

/// The shape of every compact token: three segments of unpadded base64url
/// text joined by two `.`, so never empty and never holding a space.
pub open spec fn compact_shape(token: Seq<char>) -> bool {
    &&& token.len() > 0
    &&& dot_count(token) == 2
    &&& forall|j: int| 0 <= j < token.len() ==> token[j] != ' '
}

/// `jsonwebtoken::encode` with the default header (HS256) and an HMAC key
/// made from `secret`, on the claims object `{"sub": sub, "iat": iat}`.
///
/// Claimed: the outcome depends on the three arguments alone; a token that
/// comes back has the compact shape (the callee joins three unpadded
/// base64url segments with `.`), and it decodes under the same secret to
/// the same two claims.
#[verifier::external_body]
fn encode_compact(sub: i32, iat: u64, secret: &[u8]) -> (r: Result<
    String,
    jsonwebtoken::errors::Error,
>)
    ensures
        match r {
            Ok(t) => compact_encoding(sub, iat, secret@) == Some(t@) && compact_shape(t@)
                && compact_decoding(t@, secret@) == (Decoded::Payload {
                sub: Some(sub as i64),
                iat: Some(iat),
            }),
            Err(_) => compact_encoding(sub, iat, secret@) is None,
        },
{
    let mut claims = serde_json::Map::new();
    claims.insert(String::from("sub"), serde_json::Value::from(sub));
    claims.insert(String::from("iat"), serde_json::Value::from(iat));
    let key = jsonwebtoken::EncodingKey::from_secret(secret);
    jsonwebtoken::encode(&jsonwebtoken::Header::default(), &claims, &key)
}

/// `jsonwebtoken::decode` under HS256 with an HMAC key made from `secret`,
/// with no claim required and no expiry check by the callee. The two claims
/// are read from the decoded payload as integers.
///
/// Claimed: the outcome depends on the two arguments alone, and a string
/// that does not hold exactly two `.` is reported as malformed. A signature
/// mismatch is told apart from every other failure of the callee, among
/// them a header that names another algorithm and an audience claim.
#[verifier::external_body]
fn decode_compact(token: &str, secret: &[u8]) -> (r: Decoded)
    ensures
        r == compact_decoding(token@, secret@),
        dot_count(token@) != 2 ==> r is Malformed,
{
    let mut rules = jsonwebtoken::Validation::default();
    rules.required_spec_claims.clear();
    rules.validate_exp = false;
    let key = jsonwebtoken::DecodingKey::from_secret(secret);
    match jsonwebtoken::decode::<serde_json::Value>(token, &key, &rules) {
        Ok(data) => Decoded::Payload {
            sub: data.claims.get("sub").and_then(serde_json::Value::as_i64),
            iat: data.claims.get("iat").and_then(serde_json::Value::as_u64),
        },
        Err(e) => match e.kind() {
            jsonwebtoken::errors::ErrorKind::InvalidSignature => Decoded::BadSignature,
            _ => Decoded::Malformed,
        },
    }
}

/// A token issued at `iat` is expired at `now` if a maximum age is set and
/// more than that many seconds have passed since. A token from the future is
/// never expired.
pub open spec fn expired(iat: u64, max_age: Option<u64>, now: u64) -> bool {
    match max_age {
        Some(age) => now as int - iat as int > age as int,
        None => false,
    }
}

/// The verdict on a decoded token under the policy of this module.
pub open spec fn judged(decoded: Decoded, max_age: Option<u64>, now: u64) -> Result<
    Claims,
    TokenError,
> {
    match decoded {
        Decoded::Malformed => Err(TokenError::Malformed),
        Decoded::BadSignature => Err(TokenError::BadSignature),
        Decoded::Payload { sub: Some(s), iat: Some(t) } => {
            if i32::MIN <= s <= i32::MAX && t <= usize::MAX {
                if expired(t, max_age, now) {
                    Err(TokenError::Expired)
                } else {
                    Ok(Claims { sub: s as i32, iat: t as usize })
                }
            } else {
                Err(TokenError::Malformed)
            }
        },
        Decoded::Payload { .. } => Err(TokenError::Malformed),
    }
}

/// Decides whether a token issued at `iat` is too old at `now`.
pub fn is_expired(iat: u64, max_age: Option<u64>, now: u64) -> (r: bool)
    ensures
        r == expired(iat, max_age, now),
{
    match max_age {
        Some(age) => now > iat && now - iat > age,
        None => false,
    }
}

/// Applies the policy to a decoded token.
pub fn judge(decoded: Decoded, max_age: Option<u64>, now: u64) -> (r: Result<Claims, TokenError>)
    ensures
        r == judged(decoded, max_age, now),
{
    match decoded {
        Decoded::Malformed => Err(TokenError::Malformed),
        Decoded::BadSignature => Err(TokenError::BadSignature),
        Decoded::Payload { sub: Some(s), iat: Some(t) } => {
            if s < i32::MIN as i64 || s > i32::MAX as i64 || t > usize::MAX as u64 {
                Err(TokenError::Malformed)
            } else if is_expired(t, max_age, now) {
                Err(TokenError::Expired)
            } else {
                Ok(Claims { sub: s as i32, iat: t as usize })
            }
        },
        Decoded::Payload { .. } => Err(TokenError::Malformed),
    }
}

/// The signing secret and the expiry policy, fixed when the service starts
/// and only read afterwards.
pub struct TokenCodec {
    secret: Vec<u8>,
    max_age: Option<u64>,
}

impl TokenCodec {
    /// The signing secret.
    pub closed spec fn secret(&self) -> Seq<u8> {
        self.secret@
    }

    /// The maximum age of an accepted token in seconds; `None` where tokens
    /// never expire.
    pub closed spec fn max_age(&self) -> Option<u64> {
        self.max_age
    }

    /// What `verify_at` answers for `token` at time `now`.
    pub open spec fn outcome(&self, token: Seq<char>, now: u64) -> Result<Claims, TokenError> {
        judged(compact_decoding(token, self.secret()), self.max_age(), now)
    }

    /// A codec with the given secret and maximum age.
    pub fn new(secret: Vec<u8>, max_age: Option<u64>) -> (codec: TokenCodec)
        ensures
            codec.secret() == secret@,
            codec.max_age() == max_age,
    {
        TokenCodec { secret, max_age }
    }

    /// A codec under the default policy: tokens expire after one day.
    pub fn with_default_policy(secret: Vec<u8>) -> (codec: TokenCodec)
        ensures
            codec.secret() == secret@,
            codec.max_age() == Some(DEFAULT_MAX_AGE),
    {
        TokenCodec { secret, max_age: Some(DEFAULT_MAX_AGE) }
    }

    /// The configured maximum age.
    pub fn max_age_seconds(&self) -> (age: Option<u64>)
        ensures
            age == self.max_age(),
    {
        self.max_age
    }

    /// Whether `token` is what this codec issues for `subject` at
    /// `issued_at`: then it has the compact shape, verifies under this codec
    /// to that subject and time at every moment at which it is not expired,
    /// and is rejected as expired at every other.
    pub open spec fn is_issued(&self, token: Seq<char>, subject: i32, issued_at: usize) -> bool {
        &&& compact_encoding(subject, issued_at as u64, self.secret()) == Some(token)
        &&& compact_shape(token)
        &&& forall|now: u64| #[trigger]
            self.outcome(token, now) == if expired(issued_at as u64, self.max_age(), now) {
                Err::<Claims, TokenError>(TokenError::Expired)
            } else {
                Ok::<Claims, TokenError>(Claims { sub: subject, iat: issued_at })
            }
    }

    /// What issuing for `subject` at `issued_at` answers: the token that
    /// signing the two claims yields, which is then issued in the sense of
    /// `is_issued`, and a failure exactly where signing yields none.
    pub open spec fn issue_result(
        &self,
        subject: i32,
        issued_at: usize,
        r: Result<String, SigningFailed>,
    ) -> bool {
        match r {
            Ok(token) => self.is_issued(token@, subject, issued_at),
            Err(_) => compact_encoding(subject, issued_at as u64, self.secret()) is None,
        }
    }

    /// Issues a token for `subject` that states `issued_at` as its time of
    /// issue. Every token that comes back verifies under this codec to the
    /// same subject and time, at every moment at which it is not expired.
    pub fn issue_at(&self, subject: i32, issued_at: usize) -> (r: Result<String, SigningFailed>)
        ensures
            self.issue_result(subject, issued_at, r),
    {
        match encode_compact(subject, issued_at as u64, self.secret.as_slice()) {
            Ok(token) => Ok(token),
            Err(_) => Err(SigningFailed),
        }
    }

    /// Issues a token for `subject`, stamped with the current time: the
    /// answer is that of `issue_at` at the time of issue that stands for
    /// some reading of the clock. So the token verifies to `subject` from
    /// the moment of issue on, until it expires, and issuing fails only
    /// where signing at that time yields no token.
    pub fn issue(&self, subject: i32) -> (r: Result<String, SigningFailed>)
        ensures
            exists|elapsed: Option<u64>|
                self.issue_result(subject, #[trigger] issue_time_of(elapsed), r),
    {
        let elapsed = elapsed_seconds();
        let r = self.issue_at(subject, issue_time(elapsed));
        assert(self.issue_result(subject, issue_time_of(elapsed), r));
        r
    }

    /// Checks `token` against the secret and applies the policy at time
    /// `now`, given in seconds since the Unix epoch.
    pub fn verify_at(&self, token: &str, now: u64) -> (r: Result<Claims, TokenError>)
        ensures
            r == self.outcome(token@, now),
            dot_count(token@) != 2 ==> r == Err::<Claims, TokenError>(TokenError::Malformed),
    {
        let decoded = decode_compact(token, self.secret.as_slice());
        judge(decoded, self.max_age, now)
    }

    /// Checks `token` against the secret and applies the policy at the
    /// current time. Where no maximum age is set the time plays no part.
    pub fn verify(&self, token: &str) -> (r: Result<Claims, TokenError>)
        ensures
            exists|now: u64| r == #[trigger] self.outcome(token@, now),
            self.max_age() is None ==> r == self.outcome(token@, 0),
            dot_count(token@) != 2 ==> r == Err::<Claims, TokenError>(TokenError::Malformed),
    {
        let now = match elapsed_seconds() {
            Some(s) => s,
            None => 0,
        };
        self.verify_at(token, now)
    }
}

/// The time of issue that stands for a clock reading: the seconds elapsed
/// since the epoch, held to the range of `usize`; the epoch itself for a
/// clock set before it.
pub open spec fn issue_time_of(elapsed: Option<u64>) -> usize {
    match elapsed {
        None => 0usize,
        Some(s) => if s <= usize::MAX {
            s as usize
        } else {
            usize::MAX
        },
    }
}

/// Turns a clock reading into a time of issue.
pub fn issue_time(elapsed: Option<u64>) -> (t: usize)
    ensures
        t == issue_time_of(elapsed),
{
    match elapsed {
        None => 0,
        Some(s) => if s <= usize::MAX as u64 {
            s as usize
        } else {
            usize::MAX
        },
    }
}

/// Under a maximum age, a well-formed signed token is rejected as expired
/// exactly when more seconds than that have passed since its issue, and
/// is otherwise accepted with its claims unchanged.
pub proof fn lemma_expiry_window(sub: i32, iat: usize, age: u64, now: u64)
    ensures
        now as int - iat as int > age as int ==> judged(
            Decoded::Payload { sub: Some(sub as i64), iat: Some(iat as u64) },
            Some(age),
            now,
        ) == Err::<Claims, TokenError>(TokenError::Expired),
        now as int - iat as int <= age as int ==> judged(
            Decoded::Payload { sub: Some(sub as i64), iat: Some(iat as u64) },
            Some(age),
            now,
        ) == Ok::<Claims, TokenError>(Claims { sub, iat }),
        judged(Decoded::Payload { sub: Some(sub as i64), iat: Some(iat as u64) }, None, now)
            == Ok::<Claims, TokenError>(Claims { sub, iat }),
{
}

} // verus!
