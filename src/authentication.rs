use vstd::prelude::*;

verus! {

/// What opening `token` under `secret` yields: `(subject, issued_at,
/// expires_at)` when the signature checks and the payload carries those
/// three claims, nothing otherwise. Expiry is not part of it.
pub uninterp spec fn token_claims(token: Seq<char>, secret: Seq<char>) -> Option<(Seq<char>, int, int)>;

/// The HS256 token that signs the claims `(sub, iat, exp)` with `secret`.
/// It depends on these four values alone.
pub uninterp spec fn signed_token(sub: Seq<char>, iat: int, exp: int, secret: Seq<char>) -> Seq<char>;

/// Relies on chrono::Utc::now: the current time in whole seconds since the
/// Unix epoch. Nothing is promised of the value.
#[verifier::external_body]
pub(crate) fn now_seconds() -> i64 {
    chrono::Utc::now().timestamp()
}

/// Relies on jsonwebtoken::encode with the default (HS256) header and an
/// HMAC key made from `secret`. It always succeeds: the key family matches
/// HS256, a map of strings and integers always serializes, and HMAC signing
/// returns `Ok`. The token opens, under the same secret, to exactly the
/// three claims it was given.
#[verifier::external_body]
fn sign_claims(sub: &str, iat: u64, exp: u64, secret: &str) -> (r: Option<String>)
    ensures
        r is Some,
        r matches Some(t) ==> t@ == signed_token(sub@, iat as int, exp as int, secret@),
        r matches Some(t) ==> token_claims(t@, secret@) == Some((sub@, iat as int, exp as int)),
{
    let mut claims = serde_json::Map::new();
    claims.insert("sub".to_owned(), serde_json::Value::from(sub));
    claims.insert("iat".to_owned(), serde_json::Value::from(iat));
    claims.insert("exp".to_owned(), serde_json::Value::from(exp));
    let key = jsonwebtoken::EncodingKey::from_secret(secret.as_bytes());
    jsonwebtoken::encode(&jsonwebtoken::Header::default(), &claims, &key).ok()
}

/// Relies on jsonwebtoken::decode with HS256, an HMAC key made from
/// `secret`, and no claim checks of its own (expiry is decided by the
/// caller): it checks the signature and hands back the payload's claims.
#[verifier::external_body]
fn open_token(token: &str, secret: &str) -> (r: Option<(String, u64, u64)>)
    ensures
        match r {
            Some(c) => token_claims(token@, secret@) == Some((c.0@, c.1 as int, c.2 as int)),
            None => token_claims(token@, secret@) is None,
        },
{
    let mut validation = jsonwebtoken::Validation::new(jsonwebtoken::Algorithm::HS256);
    validation.validate_exp = false;
    validation.required_spec_claims.clear();
    let key = jsonwebtoken::DecodingKey::from_secret(secret.as_bytes());
    let c = jsonwebtoken::decode::<serde_json::Value>(token, &key, &validation).ok()?.claims;
    Some((c["sub"].as_str()?.to_owned(), c["iat"].as_u64()?, c["exp"].as_u64()?))
}

/// Signing secret and token lifetime, fixed at startup.
#[derive(Debug, Clone)]
pub struct JwtConfig {
    pub secret: String,
    /// Token lifetime in minutes.
    pub expiration_time: i64,
}

/// The token codec: issues and verifies session tokens under one config.
#[derive(Debug, Clone)]
pub struct JwtAuth {
    pub config: JwtConfig,
}

/// The claims a session token carries. `iat` and `exp` are seconds since
/// the Unix epoch.
#[derive(Debug, Clone)]
pub struct Claims {
    pub sub: String,
    pub iat: u64,
    pub exp: u64,
}

/// Outcome of verifying a token: an expired but well-signed token is told
/// apart from one that does not open at all.
#[derive(Debug, Clone)]
pub enum VerifyStatus {
    Valid(Claims),
    Expired,
    Invalid,
}

/// Why a token could not be issued or accepted.
#[derive(Debug, Clone, Copy, PartialEq, Eq)]
pub enum TokenError {
    /// The clock reading or the configured lifetime gives no valid
    /// `iat < exp` pair of non-negative seconds.
    LifetimeOutOfRange,
    Expired,
    Invalid,
}

pub open spec fn claims_view(c: Claims) -> (Seq<char>, int, int) {
    (c.sub@, c.iat as int, c.exp as int)
}

/// A lifetime of `ttl` minutes starting at `now` gives claims with
/// `0 <= iat < exp` that fit in 64 bits.
pub open spec fn lifetime_ok(now: int, ttl: int) -> bool {
    0 <= now && 0 < ttl && now + 60 * ttl <= u64::MAX
}

/// `token` carries, under `secret`, the claims issued to `sub` at `now`
/// with a lifetime of `ttl` minutes.
pub open spec fn issued(token: Seq<char>, secret: Seq<char>, sub: Seq<char>, now: int, ttl: int) -> bool {
    &&& token == signed_token(sub, now, now + 60 * ttl, secret)
    &&& token_claims(token, secret) == Some((sub, now, now + 60 * ttl))
}

/// `r` is what issuing a token for `sub` at `now` gives: the token when the
/// lifetime is valid, `LifetimeOutOfRange` otherwise.
pub open spec fn issue_outcome(
    r: Result<String, TokenError>,
    secret: Seq<char>,
    sub: Seq<char>,
    now: int,
    ttl: int,
) -> bool {
    if lifetime_ok(now, ttl) {
        r matches Ok(t) && issued(t@, secret, sub, now, ttl)
    } else {
        r == Err::<String, TokenError>(TokenError::LifetimeOutOfRange)
    }
}

/// `r` is the verdict on a token that opened to `opened`, checked at `now`:
/// `Invalid` if it did not open, `Expired` once `now` is past `exp`, and
/// `Valid` with exactly the opened claims otherwise.
pub open spec fn verdict_is(r: VerifyStatus, opened: Option<(Seq<char>, int, int)>, now: int) -> bool {
    match opened {
        None => r is Invalid,
        Some(c) => if now > c.2 {
            r is Expired
        } else {
            r matches VerifyStatus::Valid(v) && claims_view(v) == c
        },
    }
}

/// A token issued to `sub` at `now`, verified at any instant from `now` up
/// to its expiry, is `Valid` and names `sub` as its subject.
pub proof fn lemma_fresh_token_is_valid(
    token: Seq<char>,
    secret: Seq<char>,
    sub: Seq<char>,
    now: int,
    ttl: int,
    at: int,
    r: VerifyStatus,
)
    requires
        lifetime_ok(now, ttl),
        issued(token, secret, sub, now, ttl),
        now <= at <= now + 60 * ttl,
        verdict_is(r, token_claims(token, secret), at),
    ensures
        r matches VerifyStatus::Valid(c) && c.sub@ == sub && c.iat == now && c.exp == now + 60 * ttl,
{
}

/// A well-signed token checked after its `exp` is `Expired`, while a token
/// that does not open under the secret (a corrupted signature, say) is
/// `Invalid`: the two verdicts never coincide.
pub proof fn lemma_expired_differs_from_invalid(
    good: Seq<char>,
    bad: Seq<char>,
    secret: Seq<char>,
    at: int,
    r_good: VerifyStatus,
    r_bad: VerifyStatus,
)
    requires
        token_claims(good, secret) matches Some(c) && at > c.2,
        token_claims(bad, secret) is None,
        verdict_is(r_good, token_claims(good, secret), at),
        verdict_is(r_bad, token_claims(bad, secret), at),
    ensures
        r_good is Expired,
        r_bad is Invalid,
        !(r_good is Invalid),
{
}

/// Two tokens issued for the same subject at different instants are
/// different strings.
pub proof fn lemma_distinct_instants_distinct_tokens(
    t1: Seq<char>,
    t2: Seq<char>,
    secret: Seq<char>,
    sub: Seq<char>,
    now1: int,
    now2: int,
    ttl: int,
)
    requires
        issued(t1, secret, sub, now1, ttl),
        issued(t2, secret, sub, now2, ttl),
        now1 != now2,
    ensures
        t1 != t2,
{
}

/// Issuing is deterministic: two codecs with the same secret and lifetime,
/// issuing for the same subject at the same instant, give the same token.
pub proof fn lemma_issue_is_deterministic(
    r1: Result<String, TokenError>,
    r2: Result<String, TokenError>,
    secret: Seq<char>,
    sub: Seq<char>,
    now: int,
    ttl: int,
)
    requires
        issue_outcome(r1, secret, sub, now, ttl),
        issue_outcome(r2, secret, sub, now, ttl),
    ensures
        match (r1, r2) {
            (Ok(t1), Ok(t2)) => t1@ == t2@,
            (Err(e1), Err(e2)) => e1 == e2,
            _ => false,
        },
{
}

/// The verdict on a token whose opened claims are `opened` (`None` when it
/// did not open), checked at `now` seconds since the epoch.
pub fn verdict(opened: Option<Claims>, now: i64) -> (r: VerifyStatus)
    ensures
        verdict_is(
            r,
            match opened {
                Some(c) => Some(claims_view(c)),
                None => None,
            },
            now as int,
        ),
{
    match opened {
        None => VerifyStatus::Invalid,
        Some(c) => {
            if now as i128 > c.exp as i128 {
                VerifyStatus::Expired
            } else {
                VerifyStatus::Valid(c)
            }
        },
    }
}

impl JwtConfig {
    pub fn new(secret: String, expiration_time: i64) -> (r: JwtConfig)
        ensures
            r.secret == secret,
            r.expiration_time == expiration_time,
    {
        JwtConfig { secret, expiration_time }
    }
}

impl JwtAuth {
    pub fn new(config: JwtConfig) -> (r: JwtAuth)
        ensures
            r.config == config,
    {
        JwtAuth { config }
    }

    pub open spec fn secret_view(&self) -> Seq<char> {
        self.config.secret@
    }

    pub open spec fn ttl(&self) -> int {
        self.config.expiration_time as int
    }

    /// The claims of a token issued to `sub` at `now`: `iat = now` and
    /// `exp = now + 60 * ttl`, or `None` when those do not form a lifetime.
    pub fn claims_at(&self, sub: &str, now: i64) -> (r: Option<Claims>)
        ensures
            r is Some <==> lifetime_ok(now as int, self.ttl()),
            r matches Some(c) ==> claims_view(c) == (sub@, now as int, now + 60 * self.ttl()),
    {
        let ttl = self.config.expiration_time;
        if now < 0 || ttl <= 0 {
            return None;
        }
        let start = now as u64;
        let minutes = ttl as u64;
        if minutes > (u64::MAX - start) / 60 {
            return None;
        }
        Some(Claims { sub: sub.to_owned(), iat: start, exp: start + minutes * 60 })
    }

    /// Issues a token for `sub` as of `now` seconds since the epoch.
    pub fn issue_at(&self, sub: &str, now: i64) -> (r: Result<String, TokenError>)
        ensures
            issue_outcome(r, self.secret_view(), sub@, now as int, self.ttl()),
    {
        match self.claims_at(sub, now) {
            None => Err(TokenError::LifetimeOutOfRange),
            Some(c) => {
                let t = sign_claims(c.sub.as_str(), c.iat, c.exp, self.config.secret.as_str());
                Ok(t.unwrap())
            },
        }
    }

    /// Issues a token for `sub` as of the current time.
    pub fn encode(&self, sub: &str) -> (r: Result<String, TokenError>)
        ensures
            exists|now: int| #[trigger] issue_outcome(r, self.secret_view(), sub@, now, self.ttl()),
            self.ttl() <= 0 ==> r == Err::<String, TokenError>(TokenError::LifetimeOutOfRange),
    {
        let now = now_seconds();
        let r = self.issue_at(sub, now);
        assert(issue_outcome(r, self.secret_view(), sub@, now as int, self.ttl()));
        r
    }

    /// The verdict on `token` checked at `now` seconds since the epoch.
    pub fn verify_at(&self, token: &str, now: i64) -> (r: VerifyStatus)
        ensures
            verdict_is(r, token_claims(token@, self.secret_view()), now as int),
    {
        let opened = match open_token(token, self.config.secret.as_str()) {
            Some(c) => Some(Claims { sub: c.0, iat: c.1, exp: c.2 }),
            None => None,
        };
        verdict(opened, now)
    }

    /// The verdict on `token` at the current time.
    pub fn verify(&self, token: &str) -> (r: VerifyStatus)
        ensures
            exists|now: int| #[trigger] verdict_is(r, token_claims(token@, self.secret_view()), now),
    {
        let now = now_seconds();
        self.verify_at(token, now)
    }

    /// The claims of `token` if it verifies at `now`, else why not.
    pub fn decode_at(&self, token: &str, now: i64) -> (r: Result<Claims, TokenError>)
        ensures
            match token_claims(token@, self.secret_view()) {
                None => r == Err::<Claims, TokenError>(TokenError::Invalid),
                Some(c) => if now > c.2 {
                    r == Err::<Claims, TokenError>(TokenError::Expired)
                } else {
                    r matches Ok(v) && claims_view(v) == c
                },
            },
    {
        match self.verify_at(token, now) {
            VerifyStatus::Valid(c) => Ok(c),
            VerifyStatus::Expired => Err(TokenError::Expired),
            VerifyStatus::Invalid => Err(TokenError::Invalid),
        }
    }

    /// The claims of `token` if it verifies at the current time.
    pub fn decode(&self, token: &str) -> (r: Result<Claims, TokenError>)
        ensures
            token_claims(token@, self.secret_view()) is None ==> r == Err::<Claims, TokenError>(
                TokenError::Invalid,
            ),
            r matches Ok(v) ==> token_claims(token@, self.secret_view()) == Some(claims_view(v)),
            r == Err::<Claims, TokenError>(TokenError::Expired) ==> token_claims(
                token@,
                self.secret_view(),
            ) is Some,
            r matches Err(e) ==> e == TokenError::Expired || e == TokenError::Invalid,
    {
        let now = now_seconds();
        self.decode_at(token, now)
    }
}

} // verus!
