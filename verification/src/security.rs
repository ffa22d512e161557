use vstd::prelude::*;

use crate::ids::{clock_secs, max_datetime_secs, uuid_text, uuid_to_string};
use crate::text::{owned, starts_with};
use vstd::utf8::encode_utf8;

verus! {

/// Lifetime of an issued token, in seconds (24 hours).
pub const TOKEN_LIFETIME_SECS: i64 = 86400;

/// Leeway granted to the expiry of a token, in seconds.
pub const TOKEN_EXPIRATION_LEEWAY: u64 = 60;

/// Issues and checks the bearer tokens of the blog with a shared secret.
#[derive(Clone, Debug)]
pub struct JwtService {
    secret: String,
}

/// The claims carried by a token: the user's identifier in text, the
/// username and the expiry in seconds since the Unix epoch.
#[derive(Clone, Debug)]
pub struct Claims {
    pub sub: String,
    pub username: String,
    pub exp: u64,
}

/// The fields that a decoded token carries under the names of the claims,
/// where they hold a text (`sub`, `username`) or an unsigned number (`exp`).
#[derive(Clone, Debug)]
pub struct TokenFields {
    pub sub: Option<String>,
    pub username: Option<String>,
    pub exp: Option<u64>,
}

/// The token that `jsonwebtoken::encode` writes, with the default header
/// (HS256) and an HMAC key made of the secret's bytes, for the claims `sub`,
/// `username` and `exp`.
pub uninterp spec fn hs256_token(sub: Seq<char>, username: Seq<char>, exp: u64, secret: Seq<char>) -> Seq<char>;

/// The claims that `jsonwebtoken::decode` gives for a token under a secret,
/// with algorithm HS256 and the expiry check off: `None` where it refuses the
/// token (its form, a header that does not name HS256, an HMAC-SHA256
/// signature that does not verify with the secret's bytes, claims that are
/// not a JSON object, a missing `exp`), else the claims `sub` and `username`
/// where they are texts and `exp` where it is an unsigned number. With the
/// expiry check off, the result does not look at the clock.
pub uninterp spec fn hs256_claims(token: Seq<char>, secret: Seq<char>) -> Option<
    (Option<Seq<char>>, Option<Seq<char>>, Option<u64>),
>;

/// Whether `jsonwebtoken::decode` accepts a token under a secret: its form,
/// its header and its signature.
pub open spec fn hs256_signed(token: Seq<char>, secret: Seq<char>) -> bool {
    hs256_claims(token, secret) is Some
}

/// A text option by its view.
pub open spec fn text_view(o: Option<String>) -> Option<Seq<char>> {
    match o {
        Some(t) => Some(t@),
        None => None,
    }
}

/// A decoding outcome as the claims it gives, `None` where it failed.
pub open spec fn fields_view(r: Result<TokenFields, String>) -> Option<(Option<Seq<char>>, Option<Seq<char>>, Option<u64>)> {
    match r {
        Ok(f) => Some((text_view(f.sub), text_view(f.username), f.exp)),
        Err(_) => None,
    }
}

/// What a verification at the time `now` gives for the claims that the
/// decoding gave: a refusal where it refused the token; the claims, where all
/// three are there and the expiry holds; else the refusal as expired or as
/// missing claims.
pub open spec fn verification_of(d: Option<(Option<Seq<char>>, Option<Seq<char>>, Option<u64>)>, now: i64, r: Result<Claims, String>) -> bool {
    match d {
        None => r is Err,
        Some((Some(sub), Some(username), Some(exp))) => if expiry_accepted(exp, now) {
            r matches Ok(c) && c.sub@ == sub && c.username@ == username && c.exp == exp
        } else {
            r matches Err(m) && m@ == "ExpiredSignature"@
        },
        Some(_) => r matches Err(m) && m@ == "JSON error: the claims sub, username and exp are required"@,
    }
}

/// The text of a successful encoding passes the signature check.
pub open spec fn ok_is_signed(r: Result<String, String>, secret: Seq<char>) -> bool {
    match r {
        Ok(t) => hs256_signed(t@, secret),
        Err(_) => true,
    }
}

/// What argon2's check of a password against a PHC hash string gives:
/// `None` where the string does not parse, else whether the password matches.
pub uninterp spec fn argon2_check(password: Seq<char>, hash: Seq<char>) -> Option<bool>;

/// The text of a successful outcome.
pub open spec fn ok_text(r: Result<String, String>) -> Option<Seq<char>> {
    match r {
        Ok(t) => Some(t@),
        Err(_) => None,
    }
}

/// Signs the claims with `jsonwebtoken::encode`, default header (HS256) and
/// `EncodingKey::from_secret`; the claims are written in the order `sub`,
/// `username`, `exp`. The crate's source shows that HMAC signing of such
/// claims does not fail, and that `decode` verifies such a signature with the
/// same secret; the token is named by `hs256_token`.
#[verifier::external_body]
fn jwt_encode(sub: &str, username: &str, exp: u64, secret: &str) -> (r: Result<String, String>)
    ensures
        ok_text(r) == Some(hs256_token(sub@, username@, exp, secret@)),
        ok_is_signed(r, secret@),
{
    let mut claims = serde_json::Map::new();
    claims.insert("sub".to_string(), serde_json::Value::from(sub));
    claims.insert("username".to_string(), serde_json::Value::from(username));
    claims.insert("exp".to_string(), serde_json::Value::from(exp));
    let key = jsonwebtoken::EncodingKey::from_secret(secret.as_bytes());
    jsonwebtoken::encode(&jsonwebtoken::Header::default(), &claims, &key).map_err(|e| e.to_string())
}

/// Whether a decoding outcome accepts every token that `jwt_encode` could
/// have issued with this secret and that equals `token`, giving back the
/// claims it was issued with.
pub open spec fn decodes_issued(token: Seq<char>, secret: Seq<char>, r: Result<TokenFields, String>) -> bool {
    forall|sub: Seq<char>, username: Seq<char>, exp: u64|
        token == hs256_token(sub, username, exp, secret) ==> (r matches Ok(f) && (f.sub matches Some(
            s,
        ) && s@ == sub) && (f.username matches Some(u) && u@ == username) && f.exp == Some(exp))
}

/// Checks a token with `jsonwebtoken::decode`: HS256, the signature, and the
/// presence of `exp`; the check of the expiry against the clock is turned
/// off here and made by `JwtService::claims_at`. The claims it gives, `None`
/// where it refuses the token, are named by `hs256_claims`, a function of the
/// token and the secret. A token that `jwt_encode` issued with this secret is
/// accepted and gives back the claims it was issued with: the source shows
/// that `decode` recomputes the same HMAC with the same key, that such a
/// token names HS256, carries `exp` and no `aud`, and that with the expiry
/// check off nothing else is validated.
#[verifier::external_body]
fn jwt_decode(token: &str, secret: &str) -> (r: Result<TokenFields, String>)
    ensures
        fields_view(r) == hs256_claims(token@, secret@),
        decodes_issued(token@, secret@, r),
{
    let mut v = jsonwebtoken::Validation::new(jsonwebtoken::Algorithm::HS256);
    v.validate_exp = false;
    let key = jsonwebtoken::DecodingKey::from_secret(secret.as_bytes());
    match jsonwebtoken::decode::<serde_json::Map<String, serde_json::Value>>(token, &key, &v) {
        Ok(d) => Ok(TokenFields {
            sub: d.claims.get("sub").and_then(serde_json::Value::as_str).map(str::to_string),
            username: d.claims.get("username").and_then(serde_json::Value::as_str).map(str::to_string),
            exp: d.claims.get("exp").and_then(serde_json::Value::as_u64),
        }),
        Err(e) => Err(e.to_string()),
    }
}

/// Hashes a password with `Argon2::default().hash_password` and a salt that
/// `SaltString::generate` draws from `OsRng`. The hash rests on chance; what
/// holds of every outcome is stated: the password checks against the hash it
/// got; the hash is a PHC string of the default algorithm Argon2id, so it
/// begins with `$argon2id$`; and, as the crate's source shows (16-byte salt,
/// 32-byte output, default parameters), only a password longer than
/// `MAX_PWD_LEN` (2^32 - 1 bytes) is refused.
#[verifier::external_body]
fn argon2_hash(password: &str) -> (r: Result<String, String>)
    ensures
        r matches Ok(h) ==> argon2_check(password@, h@) == Some(true),
        r matches Ok(h) ==> starts_with(h@, "$argon2id$"@),
        encode_utf8(password@).len() <= 0xFFFF_FFFF ==> r is Ok,
{
    let salt = argon2::password_hash::SaltString::generate(&mut rand_core::OsRng);
    let hasher = argon2::Argon2::default();
    match argon2::PasswordHasher::hash_password(&hasher, password.as_bytes(), &salt) {
        Ok(h) => Ok(h.to_string()),
        Err(e) => Err(e.to_string()),
    }
}

/// A password check with its error taken as `None`.
pub open spec fn check_view(r: Result<bool, String>) -> Option<bool> {
    match r {
        Ok(b) => Some(b),
        Err(_) => None,
    }
}

/// Checks a password against a PHC hash string: `PasswordHash::new` parses
/// it, `Argon2::default().verify_password` compares. The outcome is named by
/// `argon2_check`.
#[verifier::external_body]
fn argon2_verify(password: &str, hash: &str) -> (r: Result<bool, String>)
    ensures
        check_view(r) == argon2_check(password@, hash@),
{
    match argon2::PasswordHash::new(hash) {
        Ok(parsed) => {
            let hasher = argon2::Argon2::default();
            Ok(argon2::PasswordVerifier::verify_password(&hasher, password.as_bytes(), &parsed).is_ok())
        },
        Err(e) => Err(e.to_string()),
    }
}

/// Whether an expiry is accepted at the time `now`: it is not more than the
/// leeway of 60 seconds before it.
pub open spec fn expiry_accepted(exp: u64, now: i64) -> bool {
    exp + TOKEN_EXPIRATION_LEEWAY >= now
}

/// Whether a verification at the time `now` treats every token issued with
/// the secret and equal to `token` as its expiry asks: accepted with the
/// claims it was issued with while the expiry holds, else refused as expired.
pub open spec fn verified_at(token: Seq<char>, secret: Seq<char>, now: i64, r: Result<Claims, String>) -> bool {
    forall|sub: Seq<char>, username: Seq<char>, exp: u64|
        #![trigger hs256_token(sub, username, exp, secret)]
        token == hs256_token(sub, username, exp, secret) ==> if expiry_accepted(exp, now) {
            r matches Ok(c) && c.sub@ == sub && c.username@ == username && c.exp == exp
        } else {
            r matches Err(m) && m@ == "ExpiredSignature"@
        }
}

/// Whether a token is one that the service issues for the user, whatever its
/// expiry.
pub open spec fn issued_for(token: Seq<char>, user_id: u128, username: Seq<char>, secret: Seq<char>) -> bool {
    exists|exp: u64| token == hs256_token(uuid_text(user_id), username, exp, secret)
}

/// Whether claims are those that an issued token equal to `token` carried.
pub open spec fn claims_of_issued(token: Seq<char>, secret: Seq<char>, c: Claims) -> bool {
    forall|sub: Seq<char>, username: Seq<char>, exp: u64|
        token == hs256_token(sub, username, exp, secret) ==> c.sub@ == sub && c.username@
            == username && c.exp == exp
}

impl JwtService {
    /// The service's secret.
    pub closed spec fn secret(&self) -> Seq<char> {
        self.secret@
    }

    /// A service that signs with the given secret.
    pub fn new(secret: &str) -> (r: JwtService)
        ensures
            r.secret() == secret@,
    {
        JwtService { secret: owned(secret) }
    }

    /// A copy of the service with the same secret.
    pub fn duplicate(&self) -> (r: JwtService)
        ensures
            r.secret() == self.secret(),
    {
        JwtService { secret: self.secret.clone() }
    }

    /// Issues a token for the user that expires 24 hours after `now`, a time
    /// in seconds since the Unix epoch: the claims are the user's identifier
    /// in text, the username and that expiry, signed with the secret.
    pub fn issue_token_at(&self, now: i64, user_id: u128, username: &str) -> (r: String)
        requires
            now + TOKEN_LIFETIME_SECS <= max_datetime_secs(),
        ensures
            r@ == hs256_token(
                uuid_text(user_id),
                username@,
                (now + TOKEN_LIFETIME_SECS) as u64,
                self.secret(),
            ),
    {
        let expires = now + TOKEN_LIFETIME_SECS;
        let exp = expires as u64;
        let sub = uuid_to_string(user_id);
        match jwt_encode(sub.as_str(), username, exp, self.secret.as_str()) {
            Ok(t) => t,
            Err(_) => {
                proof {
                    assert(false);
                }
                String::new()
            },
        }
    }

    /// Issues a token for the user that expires 24 hours after `now`, where
    /// that expiry is a date that `chrono` holds; a later one is refused.
    pub fn issue_token_checked_at(&self, now: i64, user_id: u128, username: &str) -> (r: Result<String, String>)
        ensures
            (r is Err) == (now + TOKEN_LIFETIME_SECS > max_datetime_secs()),
            r matches Ok(t) ==> t@ == hs256_token(
                uuid_text(user_id),
                username@,
                (now + TOKEN_LIFETIME_SECS) as u64,
                self.secret(),
            ),
            r matches Err(e) ==> e@ == "expiry out of the range of dates"@,
    {
        proof {
            assert(max_datetime_secs() == 8210266876799);
        }
        if now > 8210266876799 - TOKEN_LIFETIME_SECS {
            return Err(owned("expiry out of the range of dates"));
        }
        Ok(self.issue_token_at(now, user_id, username))
    }

    /// Issues a token for the user that expires 24 hours from now, as
    /// `issue_token_checked_at` does for the time that the clock gives. Only
    /// a clock within a day of the last date that `chrono` holds makes it
    /// fail.
    pub fn generate_token(&self, user_id: u128, username: &str) -> (r: Result<String, String>)
        ensures
            r matches Ok(t) ==> issued_for(t@, user_id, username@, self.secret()),
            r matches Err(e) ==> e@ == "expiry out of the range of dates"@,
    {
        let now = clock_secs();
        let r = self.issue_token_checked_at(now, user_id, username);
        proof {
            if r is Ok {
                let exp = (now + TOKEN_LIFETIME_SECS) as u64;
                assert(r->Ok_0@ == hs256_token(uuid_text(user_id), username@, exp, self.secret()));
            }
        }
        r
    }

    /// The claims that the fields of a decoded token make: all three must be
    /// present with the right kind, else the token is refused.
    pub fn claims_from_fields(fields: TokenFields) -> (r: Result<Claims, String>)
        ensures
            match (fields.sub, fields.username, fields.exp) {
                (Some(sub), Some(username), Some(exp)) => r == Ok::<Claims, String>(
                    Claims { sub, username, exp },
                ),
                _ => r matches Err(m) && m@ == "JSON error: the claims sub, username and exp are required"@,
            },
    {
        match (fields.sub, fields.username, fields.exp) {
            (Some(sub), Some(username), Some(exp)) => Ok(Claims { sub, username, exp }),
            _ => Err(owned("JSON error: the claims sub, username and exp are required")),
        }
    }

    /// The claims of a decoded token at the time `now`, in seconds since the
    /// Unix epoch: those of `claims_from_fields`, refused as expired where
    /// `exp` is more than 60 seconds before `now`.
    pub fn claims_at(fields: TokenFields, now: i64) -> (r: Result<Claims, String>)
        ensures
            match (fields.sub, fields.username, fields.exp) {
                (Some(sub), Some(username), Some(exp)) => if expiry_accepted(exp, now) {
                    r == Ok::<Claims, String>(Claims { sub, username, exp })
                } else {
                    r matches Err(m) && m@ == "ExpiredSignature"@
                },
                _ => r matches Err(m) && m@ == "JSON error: the claims sub, username and exp are required"@,
            },
    {
        let claims = match Self::claims_from_fields(fields) {
            Ok(c) => c,
            Err(e) => {
                return Err(e);
            },
        };
        let fresh = if now <= 60 {
            true
        } else {
            claims.exp >= (now - 60) as u64
        };
        if fresh {
            Ok(claims)
        } else {
            Err(owned("ExpiredSignature"))
        }
    }

    /// Checks a token at the time `now`, in seconds since the Unix epoch:
    /// its form, algorithm HS256 and signature with the secret, then
    /// `claims_at(now)`. An accepted token passes the signature check; a token
    /// that this service issued is accepted with its claims until 60 seconds
    /// after its expiry, and refused as expired after that.
    pub fn verify_token_at(&self, token: &str, now: i64) -> (r: Result<Claims, String>)
        ensures
            r is Ok ==> hs256_signed(token@, self.secret()),
            r matches Ok(c) ==> claims_of_issued(token@, self.secret(), c),
            verification_of(hs256_claims(token@, self.secret()), now, r),
            verified_at(token@, self.secret(), now, r),
    {
        let decoded = jwt_decode(token, self.secret.as_str());
        match decoded {
            Err(e) => Err(e),
            Ok(fields) => Self::claims_at(fields, now),
        }
    }

    /// Checks a token as `verify_token_at` does at the time that the clock
    /// gives: its form, algorithm HS256 and signature with the secret, an
    /// `exp` that has not passed, with a leeway of 60 seconds, and all three
    /// claims. An accepted token passes the signature check with the secret,
    /// and a token issued by this service gives back the claims it was issued
    /// with.
    pub fn verify_token(&self, token: &str) -> (r: Result<Claims, String>)
        ensures
            r is Ok ==> hs256_signed(token@, self.secret()),
            r matches Ok(c) ==> claims_of_issued(token@, self.secret(), c),
            r matches Ok(c) ==> hs256_claims(token@, self.secret()) == Some(
                (Some(c.sub@), Some(c.username@), Some(c.exp)),
            ),
    {
        let now = clock_secs();
        self.verify_token_at(token, now)
    }
}

/// Hashes a password with Argon2 and a random salt; the password checks
/// against the hash it got, which is a PHC string of Argon2id. Only a
/// password of more than 2^32 - 1 bytes, which argon2 refuses, fails.
pub fn hash_password(password: &str) -> (r: Result<String, String>)
    ensures
        r matches Ok(h) ==> argon2_check(password@, h@) == Some(true),
        r matches Ok(h) ==> starts_with(h@, "$argon2id$"@),
        encode_utf8(password@).len() <= 0xFFFF_FFFF ==> r is Ok,
{
    argon2_hash(password)
}

/// Checks a password against a stored hash; an unreadable hash is an error.
pub fn verify_password(password: &str, hash: &str) -> (r: Result<bool, String>)
    ensures
        check_view(r) == argon2_check(password@, hash@),
{
    argon2_verify(password, hash)
}

/// A token issued for a user gives back, once accepted, that user's
/// identifier in text and username.
pub proof fn lemma_issued_token_claims(token: Seq<char>, secret: Seq<char>, user_id: u128, username: Seq<char>, c: Claims)
    requires
        issued_for(token, user_id, username, secret),
        claims_of_issued(token, secret, c),
    ensures
        c.sub@ == uuid_text(user_id),
        c.username@ == username,
{
    let exp = choose|exp: u64| token == hs256_token(uuid_text(user_id), username, exp, secret);
    assert(token == hs256_token(uuid_text(user_id), username, exp, secret));
}


/// A token issued for a user with an expiry is accepted, with that user's
/// identifier in text and username, by a verification at any time up to 60
/// seconds after the expiry.
pub proof fn law_issued_token_verifies(
    secret: Seq<char>,
    user_id: u128,
    username: Seq<char>,
    exp: u64,
    now: i64,
    r: Result<Claims, String>,
)
    requires
        now <= exp + TOKEN_EXPIRATION_LEEWAY,
        verified_at(hs256_token(uuid_text(user_id), username, exp, secret), secret, now, r),
    ensures
        r matches Ok(c) && c.sub@ == uuid_text(user_id) && c.username@ == username && c.exp == exp,
{
    assert(expiry_accepted(exp, now));
}

/// A token that the service issued for a user (as `generate_token`,
/// `register` and `login` give it) is, at any time, either accepted with
/// that user's identifier in text and username, or refused as expired.
pub proof fn law_issued_token_names_user_or_expires(
    token: Seq<char>,
    secret: Seq<char>,
    user_id: u128,
    username: Seq<char>,
    now: i64,
    r: Result<Claims, String>,
)
    requires
        issued_for(token, user_id, username, secret),
        verified_at(token, secret, now, r),
    ensures
        (r matches Ok(c) && c.sub@ == uuid_text(user_id) && c.username@ == username) || (r matches Err(
            m,
        ) && m@ == "ExpiredSignature"@),
{
    let exp = choose|exp: u64| token == hs256_token(uuid_text(user_id), username, exp, secret);
    assert(token == hs256_token(uuid_text(user_id), username, exp, secret));
}

/// A token issued at the time `now` is accepted, with that user's identifier
/// in text and username, by a verification at any time up to 24 hours and 60
/// seconds later.
pub proof fn law_token_round_trip(
    secret: Seq<char>,
    user_id: u128,
    username: Seq<char>,
    now: i64,
    later: i64,
    r: Result<Claims, String>,
)
    requires
        now + TOKEN_LIFETIME_SECS <= max_datetime_secs(),
        0 <= now + TOKEN_LIFETIME_SECS,
        later <= now + TOKEN_LIFETIME_SECS + TOKEN_EXPIRATION_LEEWAY,
        verified_at(
            hs256_token(uuid_text(user_id), username, (now + TOKEN_LIFETIME_SECS) as u64, secret),
            secret,
            later,
            r,
        ),
    ensures
        r matches Ok(c) && c.sub@ == uuid_text(user_id) && c.username@ == username,
{
    law_issued_token_verifies(secret, user_id, username, (now + TOKEN_LIFETIME_SECS) as u64, later, r);
}

} // verus!
