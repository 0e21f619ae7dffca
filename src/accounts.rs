use crate::authentication::{issued, lifetime_ok, now_seconds, Claims, JwtAuth, TokenError};
use crate::errors::{message_of, status_of, ApiError};
use crate::gates::{token_gate_is, Rejection};
use crate::password::{hash_password, password_verifies, verify_password};
use crate::payloads::CreateOrUpdateUserPayload;
use vstd::arithmetic::power::pow;
use vstd::prelude::*;

verus! {

/// The account id that the text `s` spells, when it is a UUID.
pub uninterp spec fn uuid_parse(s: Seq<char>) -> Option<u128>;

/// Lower-case hexadecimal digit of value `d`.
pub open spec fn hex_digit(d: int) -> char {
    seq!['0', '1', '2', '3', '4', '5', '6', '7', '8', '9', 'a', 'b', 'c', 'd', 'e', 'f'][d]
}

/// The `k`-th of the 32 hex digits of `id`, most significant first.
pub open spec fn nibble(id: u128, k: int) -> int {
    (id as int / pow(16, (31 - k) as nat)) % 16
}

/// Which of the 32 hex digits stands at position `i` of the hyphenated text.
pub open spec fn digit_index(i: int) -> int {
    if i < 8 {
        i
    } else if i < 13 {
        i - 1
    } else if i < 18 {
        i - 2
    } else if i < 23 {
        i - 3
    } else {
        i - 4
    }
}

/// The canonical text of the UUID `id`: 32 lower-case hex digits, most
/// significant first, with hyphens after the 8th, 12th, 16th and 20th.
pub open spec fn uuid_text(id: u128) -> Seq<char> {
    Seq::new(
        36,
        |i: int|
            if i == 8 || i == 13 || i == 18 || i == 23 {
                '-'
            } else {
                hex_digit(nibble(id, digit_index(i)))
            },
    )
}

/// Relies on `uuid::Uuid::parse_str`, read back as a big-endian 128-bit
/// value by `Uuid::as_u128`.
#[verifier::external_body]
fn parse_uuid(s: &str) -> (r: Option<u128>)
    ensures
        r == uuid_parse(s@),
{
    uuid::Uuid::parse_str(s).ok().map(|u| u.as_u128())
}

/// Relies on `uuid::Uuid::from_u128` and its `Display` impl, whose
/// hyphenated form `Uuid::parse_str` reads back to the same value.
#[verifier::external_body]
fn uuid_to_text(id: u128) -> (r: String)
    ensures
        r@ == uuid_text(id),
        uuid_parse(r@) == Some(id),
{
    uuid::Uuid::from_u128(id).to_string()
}

/// Bio given to an account registered without one.
pub const DEFAULT_BIO: &'static str = "Hey! I am using Lynkt!";

/// What the login flow reads of a stored account.
#[derive(Debug, Clone)]
pub struct Credentials {
    pub id: u128,
    pub password_hash: String,
}

/// An account record ready to be stored: the password only as its hash.
#[derive(Debug, Clone)]
pub struct NewUser {
    pub name: String,
    pub slug: String,
    pub email: String,
    pub password_hash: String,
    pub bio: String,
    pub country: String,
}

/// The single error of a failed login, whether the e-mail is unknown or
/// the password wrong.
pub open spec fn invalid_credentials(e: ApiError) -> bool {
    e matches ApiError::Unauthorized(m) && m@ == "Invalid credentials"@
}

fn invalid_credentials_error() -> (r: ApiError)
    ensures
        invalid_credentials(r),
{
    proof {
        reveal_strlit("Invalid credentials");
    }
    ApiError::Unauthorized("Invalid credentials".to_owned())
}

/// The error of a login whose token could not be made.
pub open spec fn token_failure(e: ApiError) -> bool {
    e matches ApiError::DbError(m) && m@ == "Failed to create authentication token"@
}

/// Turns a valid registration payload into the record to store: the
/// password is replaced by its hash and a missing bio by the default one.
pub fn prepare_registration(payload: &CreateOrUpdateUserPayload) -> (r: Result<NewUser, ApiError>)
    ensures
        !payload.valid() ==> (r matches Err(ApiError::ValidationFailed(m)) && m@ == "Invalid payload"@),
        payload.valid() ==> match r {
            Ok(u) => {
                &&& u.name@ == payload.name@
                &&& u.slug@ == payload.slug@
                &&& u.email@ == payload.email@
                &&& u.country@ == payload.country@
                &&& password_verifies(payload.password@, u.password_hash@)
                &&& u.bio@ == match payload.bio {
                    Some(b) => b@,
                    None => DEFAULT_BIO@,
                }
            },
            Err(e) => e is HashError,
        },
{
    payload.validate()?;
    let password_hash = hash_password(payload.password.as_str())?;
    let bio = match &payload.bio {
        Some(b) => b.clone(),
        None => DEFAULT_BIO.to_owned(),
    };
    Ok(NewUser {
        name: payload.name.clone(),
        slug: payload.slug.clone(),
        email: payload.email.clone(),
        password_hash,
        bio,
        country: payload.country.clone(),
    })
}

/// `r` is the login decision at `now` for `password` and the account found
/// for the e-mail (if any): an unknown e-mail and a wrong password give the
/// same error; a matching password gives the token issued for the account
/// id at `now`, or, when the clock and lifetime give no valid lifetime, the
/// token error.
pub open spec fn login_outcome(
    r: Result<String, ApiError>,
    auth: JwtAuth,
    password: Seq<char>,
    account: Option<Credentials>,
    now: int,
) -> bool {
    match account {
        None => r matches Err(e) && invalid_credentials(e),
        Some(a) => if !password_verifies(password, a.password_hash@) {
            r matches Err(e) && invalid_credentials(e)
        } else if lifetime_ok(now, auth.ttl()) {
            &&& r matches Ok(t) && issued(t@, auth.secret_view(), uuid_text(a.id), now, auth.ttl())
            &&& uuid_parse(uuid_text(a.id)) == Some(a.id)
        } else {
            r matches Err(e) && token_failure(e)
        },
    }
}

pub open spec fn account_view(account: Option<&Credentials>) -> Option<Credentials> {
    match account {
        Some(a) => Some(*a),
        None => None,
    }
}

/// The login decision at `now`, given the account found for the e-mail
/// (if any).
pub fn login_at(auth: &JwtAuth, password: &str, account: Option<&Credentials>, now: i64) -> (r: Result<
    String,
    ApiError,
>)
    ensures
        login_outcome(r, *auth, password@, account_view(account), now as int),
{
    let a = match account {
        None => return Err(invalid_credentials_error()),
        Some(a) => a,
    };
    if !verify_password(password, a.password_hash.as_str()) {
        return Err(invalid_credentials_error());
    }
    let subject = uuid_to_text(a.id);
    match auth.issue_at(subject.as_str(), now) {
        Ok(t) => Ok(t),
        Err(_) => {
            proof {
                reveal_strlit("Failed to create authentication token");
            }
            Err(ApiError::DbError("Failed to create authentication token".to_owned()))
        },
    }
}

/// The login decision at the current time.
pub fn login(auth: &JwtAuth, password: &str, account: Option<&Credentials>) -> (r: Result<String, ApiError>)
    ensures
        exists|now: int| #[trigger] login_outcome(r, *auth, password@, account_view(account), now),
        account is None ==> (r matches Err(e) && invalid_credentials(e)),
{
    let now = now_seconds();
    let r = login_at(auth, password, account, now);
    assert(login_outcome(r, *auth, password@, account_view(account), now as int));
    r
}

/// The account id a verified token speaks for: its subject read as a UUID.
pub fn subject_id(claims: &Claims) -> (r: Result<u128, ApiError>)
    ensures
        match uuid_parse(claims.sub@) {
            Some(id) => r == Ok::<u128, ApiError>(id),
            None => r matches Err(ApiError::BadRequest(m)) && m@ == "Unable to get your data from token"@,
        },
{
    match parse_uuid(claims.sub.as_str()) {
        Some(id) => Ok(id),
        None => {
            proof {
                reveal_strlit("Unable to get your data from token");
            }
            Err(ApiError::BadRequest("Unable to get your data from token".to_owned()))
        },
    }
}

/// A login with an unknown e-mail and one with a wrong password fail in
/// the same way: same status, same message.
pub proof fn lemma_login_failures_look_alike(
    unknown: Result<String, ApiError>,
    wrong: Result<String, ApiError>,
)
    requires
        unknown matches Err(e) && invalid_credentials(e),
        wrong matches Err(e) && invalid_credentials(e),
    ensures
        unknown matches Err(e1) && wrong matches Err(e2) && status_of(e1) == status_of(e2)
            && status_of(e1) == 401 && message_of(e1) == message_of(e2),
{
}

/// The token a login hands out, presented in the `token` cookie before it
/// expires, passes the token gate, and its subject reads back as the id of
/// the account that logged in.
pub proof fn lemma_login_token_leads_back_to_account(
    token: Seq<char>,
    secret: Seq<char>,
    id: u128,
    now: int,
    ttl: int,
    at: int,
    gate: Result<Claims, Rejection>,
)
    requires
        lifetime_ok(now, ttl),
        issued(token, secret, uuid_text(id), now, ttl),
        uuid_parse(uuid_text(id)) == Some(id),
        now <= at <= now + 60 * ttl,
        token_gate_is(gate, Some(token), secret, at),
    ensures
        gate matches Ok(c) && uuid_parse(c.sub@) == Some(id),
{
}

} // verus!
