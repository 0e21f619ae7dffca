use crate::authentication::{claims_view, now_seconds, token_claims, Claims, JwtAuth, VerifyStatus};
use crate::errors::{message_of, status_of, ApiError};
use vstd::prelude::*;

verus! {

/// Why a request was stopped before reaching its handler.
#[derive(Debug, Clone, Copy, PartialEq, Eq)]
pub enum Rejection {
    /// No frontend-secret header.
    HeaderMissing,
    /// A frontend-secret header that does not match.
    HeaderInvalid,
    /// No `token` cookie: a client usage error.
    CookieMissing,
    /// A token that is expired or does not open.
    TokenRejected,
}

impl Rejection {
    pub open spec fn status(self) -> u16 {
        match self {
            Rejection::CookieMissing => 400,
            _ => 401,
        }
    }

    /// The client-facing text of each rejection.
    pub open spec fn message(self) -> Seq<char> {
        match self {
            Rejection::HeaderMissing => "Header named `x-frontend-secret` missing"@,
            Rejection::HeaderInvalid => "Header named `x-frontend-secret` invalid"@,
            Rejection::CookieMissing => "Cookie with name 'token' is not present"@,
            Rejection::TokenRejected => "Token is not valid"@,
        }
    }

    /// The client-facing error for this rejection: a missing cookie is a
    /// bad request, everything else is unauthorized.
    pub fn into_api_error(self) -> (r: ApiError)
        ensures
            status_of(r) == self.status(),
            message_of(r) == self.message(),
            self == Rejection::CookieMissing ==> r is BadRequest,
            self != Rejection::CookieMissing ==> r is Unauthorized,
    {
        proof {
            reveal_strlit("Header named `x-frontend-secret` missing");
            reveal_strlit("Header named `x-frontend-secret` invalid");
            reveal_strlit("Cookie with name 'token' is not present");
            reveal_strlit("Token is not valid");
        }
        match self {
            Rejection::HeaderMissing => ApiError::Unauthorized(
                "Header named `x-frontend-secret` missing".to_owned(),
            ),
            Rejection::HeaderInvalid => ApiError::Unauthorized(
                "Header named `x-frontend-secret` invalid".to_owned(),
            ),
            Rejection::CookieMissing => ApiError::BadRequest(
                "Cookie with name 'token' is not present".to_owned(),
            ),
            Rejection::TokenRejected => ApiError::Unauthorized("Token is not valid".to_owned()),
        }
    }
}

/// The frontend-secret gate: the header must be present and equal the
/// configured secret.
pub fn frontend_gate(header: Option<&str>, expected: &str) -> (r: Result<(), Rejection>)
    ensures
        header is None ==> r == Err::<(), Rejection>(Rejection::HeaderMissing),
        header matches Some(h) ==> (r is Ok <==> h@ == expected@),
        header matches Some(h) && h@ != expected@ ==> r == Err::<(), Rejection>(
            Rejection::HeaderInvalid,
        ),
{
    match header {
        None => Err(Rejection::HeaderMissing),
        Some(h) => {
            let given = h.to_owned();
            let wanted = expected.to_owned();
            if given == wanted {
                Ok(())
            } else {
                Err(Rejection::HeaderInvalid)
            }
        },
    }
}

/// `r` is what the token gate decides for `cookie` under `secret` at `now`.
pub open spec fn token_gate_is(
    r: Result<Claims, Rejection>,
    cookie: Option<Seq<char>>,
    secret: Seq<char>,
    now: int,
) -> bool {
    match cookie {
        None => r == Err::<Claims, Rejection>(Rejection::CookieMissing),
        Some(t) => match token_claims(t, secret) {
            None => r == Err::<Claims, Rejection>(Rejection::TokenRejected),
            Some(c) => if now > c.2 {
                r == Err::<Claims, Rejection>(Rejection::TokenRejected)
            } else {
                r matches Ok(v) && claims_view(v) == c
            },
        },
    }
}

pub open spec fn cookie_view(cookie: Option<&str>) -> Option<Seq<char>> {
    match cookie {
        Some(t) => Some(t@),
        None => None,
    }
}

/// The bearer-token gate at `now`: a missing cookie is rejected as a client
/// error without looking any further; a present one must verify, and its
/// claims are handed on to the handler.
pub fn token_gate_at(auth: &JwtAuth, cookie: Option<&str>, now: i64) -> (r: Result<Claims, Rejection>)
    ensures
        token_gate_is(r, cookie_view(cookie), auth.secret_view(), now as int),
{
    match cookie {
        None => Err(Rejection::CookieMissing),
        Some(t) => match auth.verify_at(t, now) {
            VerifyStatus::Valid(c) => Ok(c),
            VerifyStatus::Expired => Err(Rejection::TokenRejected),
            VerifyStatus::Invalid => Err(Rejection::TokenRejected),
        },
    }
}

/// The bearer-token gate at the current time.
pub fn token_gate(auth: &JwtAuth, cookie: Option<&str>) -> (r: Result<Claims, Rejection>)
    ensures
        exists|now: int| #[trigger] token_gate_is(r, cookie_view(cookie), auth.secret_view(), now),
{
    let now = now_seconds();
    token_gate_at(auth, cookie, now)
}

/// The whole chain in front of a protected route at `now`: the frontend
/// gate first, then the token gate. `Ok` carries the claims the handler
/// runs with; any `Err` is final and the handler is not run.
pub fn guard_at(
    auth: &JwtAuth,
    header: Option<&str>,
    frontend_secret: &str,
    cookie: Option<&str>,
    now: i64,
) -> (r: Result<Claims, Rejection>)
    ensures
        header is None ==> r == Err::<Claims, Rejection>(Rejection::HeaderMissing),
        header matches Some(h) && h@ != frontend_secret@ ==> r == Err::<Claims, Rejection>(
            Rejection::HeaderInvalid,
        ),
        header matches Some(h) && h@ == frontend_secret@ ==> token_gate_is(
            r,
            cookie_view(cookie),
            auth.secret_view(),
            now as int,
        ),
{
    match frontend_gate(header, frontend_secret) {
        Err(e) => Err(e),
        Ok(()) => token_gate_at(auth, cookie, now),
    }
}

/// A protected request without a `token` cookie is turned away with a
/// client-input error (status 400) by the token gate itself, whatever the
/// secret or the time.
pub proof fn lemma_missing_cookie_is_client_error(r: Result<Claims, Rejection>, secret: Seq<char>, now: int)
    requires
        token_gate_is(r, None, secret, now),
    ensures
        r matches Err(e) && e == Rejection::CookieMissing && e.status() == 400
            && e.message() == "Cookie with name 'token' is not present"@,
{
}

/// A token that opens but has expired is rejected with status 401: the
/// gate yields no claims, so the handler never runs.
pub proof fn lemma_expired_token_never_reaches_handler(
    r: Result<Claims, Rejection>,
    token: Seq<char>,
    secret: Seq<char>,
    now: int,
)
    requires
        token_claims(token, secret) matches Some(c) && now > c.2,
        token_gate_is(r, Some(token), secret, now),
    ensures
        r is Err,
        r matches Err(e) && e.status() == 401 && e.message() == "Token is not valid"@,
{
}

} // verus!
