use crate::errors::ApiError;
use vstd::prelude::*;
use vstd::string::*;
use vstd::utf8::encode_utf8;

verus! {

/// Whether `c` has the Unicode `Uppercase` property.
pub uninterp spec fn upper_char(c: char) -> bool;

/// Whether `c` has the Unicode `Lowercase` property.
pub uninterp spec fn lower_char(c: char) -> bool;

/// Whether `c` is alphabetic or numeric in Unicode's sense.
pub uninterp spec fn alnum_char(c: char) -> bool;

/// Whether `s` passes the e-mail address check.
pub uninterp spec fn email_ok(s: Seq<char>) -> bool;

/// Relies on std's `char::is_uppercase`.
#[verifier::external_body]
fn is_upper(c: char) -> (r: bool)
    ensures
        r == upper_char(c),
{
    c.is_uppercase()
}

/// Relies on std's `char::is_lowercase`.
#[verifier::external_body]
fn is_lower(c: char) -> (r: bool)
    ensures
        r == lower_char(c),
{
    c.is_lowercase()
}

/// Relies on std's `char::is_alphanumeric`.
#[verifier::external_body]
fn is_alnum(c: char) -> (r: bool)
    ensures
        r == alnum_char(c),
{
    c.is_alphanumeric()
}

/// Relies on `validator::ValidateEmail::validate_email` for `String`, which
/// rejects the empty string and any string without an `@`.
#[verifier::external_body]
fn check_email(s: &String) -> (r: bool)
    ensures
        r == email_ok(s@),
        s@.len() == 0 ==> !r,
        !s@.contains('@') ==> !r,
{
    validator::ValidateEmail::validate_email(s)
}

pub open spec fn ascii_digit(c: char) -> bool {
    '0' <= c && c <= '9'
}

pub open spec fn has_upper(s: Seq<char>) -> bool {
    exists|i: int| 0 <= i < s.len() && #[trigger] upper_char(s[i])
}

pub open spec fn has_lower(s: Seq<char>) -> bool {
    exists|i: int| 0 <= i < s.len() && #[trigger] lower_char(s[i])
}

pub open spec fn has_digit(s: Seq<char>) -> bool {
    exists|i: int| 0 <= i < s.len() && #[trigger] ascii_digit(s[i])
}

pub open spec fn has_symbol(s: Seq<char>) -> bool {
    exists|i: int| 0 <= i < s.len() && !#[trigger] alnum_char(s[i])
}

/// At least eight bytes, with an upper-case letter, a lower-case letter, an
/// ASCII digit and a character that is neither letter nor digit.
pub open spec fn strong(p: Seq<char>) -> bool {
    encode_utf8(p).len() >= 8 && has_upper(p) && has_lower(p) && has_digit(p) && has_symbol(p)
}

/// The password strength rule.
pub fn strong_password(password: &str) -> (r: bool)
    ensures
        r == strong(password@),
{
    let len_ok = password.as_bytes().len() >= 8;
    let n = password.unicode_len();
    let mut found_upper = false;
    let mut found_lower = false;
    let mut found_digit = false;
    let mut found_symbol = false;
    let mut i: usize = 0;
    while i < n
        invariant
            n == password@.len(),
            i <= n,
            found_upper == has_upper(password@.subrange(0, i as int)),
            found_lower == has_lower(password@.subrange(0, i as int)),
            found_digit == has_digit(password@.subrange(0, i as int)),
            found_symbol == has_symbol(password@.subrange(0, i as int)),
        decreases n - i,
    {
        let c = password.get_char(i);
        proof {
            let s = password@;
            let pre = s.subrange(0, i as int);
            let next = s.subrange(0, i + 1);
            assert forall|j: int| 0 <= j < pre.len() implies next[j] == pre[j] by {}
            assert(next[i as int] == c);
            if upper_char(c) {
                assert(upper_char(next[i as int]));
            }
            if lower_char(c) {
                assert(lower_char(next[i as int]));
            }
            if ascii_digit(c) {
                assert(ascii_digit(next[i as int]));
            }
            if !alnum_char(c) {
                assert(!alnum_char(next[i as int]));
            }
        }
        found_upper = found_upper || is_upper(c);
        found_lower = found_lower || is_lower(c);
        found_digit = found_digit || ('0' <= c && c <= '9');
        found_symbol = found_symbol || !is_alnum(c);
        i = i + 1;
    }
    proof {
        assert(password@.subrange(0, n as int) =~= password@);
    }
    len_ok && found_upper && found_lower && found_digit && found_symbol
}

/// Number of characters, as a length rule counts them.
fn char_count(s: &String) -> (r: usize)
    ensures
        r == s@.len(),
{
    s.as_str().unicode_len()
}

/// Registration and profile-update payload.
#[derive(Debug, Clone)]
pub struct CreateOrUpdateUserPayload {
    pub name: String,
    pub bio: Option<String>,
    pub slug: String,
    pub email: String,
    pub password: String,
    pub country: String,
}

/// Login payload.
#[derive(Debug, Clone)]
pub struct LoginPayload {
    pub email: String,
    pub password: String,
}

pub open spec fn len_between(s: Seq<char>, lo: int, hi: int) -> bool {
    lo <= s.len() <= hi
}

impl CreateOrUpdateUserPayload {
    /// Name and slug of 4 to 100 characters, a bio (when given) of 20 to
    /// 1000, a well-formed e-mail address and a strong password.
    pub open spec fn valid(&self) -> bool {
        &&& len_between(self.name@, 4, 100)
        &&& match self.bio {
            Some(b) => len_between(b@, 20, 1000),
            None => true,
        }
        &&& len_between(self.slug@, 4, 100)
        &&& email_ok(self.email@)
        &&& strong(self.password@)
    }
}

impl CreateOrUpdateUserPayload {
    /// Checks every field rule; a payload that breaks any of them is
    /// rejected as a whole with `ValidationFailed`.
    pub fn validate(&self) -> (r: Result<(), ApiError>)
        ensures
            r is Ok <==> self.valid(),
            r matches Err(e) ==> (e matches ApiError::ValidationFailed(m) && m@ == "Invalid payload"@),
    {
        let name_len = char_count(&self.name);
        let slug_len = char_count(&self.slug);
        let bio_ok = match &self.bio {
            Some(b) => {
                let n = char_count(b);
                20 <= n && n <= 1000
            },
            None => true,
        };
        if 4 <= name_len && name_len <= 100 && bio_ok && 4 <= slug_len && slug_len <= 100
            && check_email(&self.email) && strong_password(self.password.as_str()) {
            Ok(())
        } else {
            Err(ApiError::invalid_payload())
        }
    }
}

impl LoginPayload {
    pub open spec fn valid(&self) -> bool {
        email_ok(self.email@)
    }

    /// Checks that the e-mail address is well formed.
    pub fn validate(&self) -> (r: Result<(), ApiError>)
        ensures
            r is Ok <==> self.valid(),
            r matches Err(e) ==> (e matches ApiError::ValidationFailed(m) && m@ == "Invalid payload"@),
    {
        if check_email(&self.email) {
            Ok(())
        } else {
            Err(ApiError::invalid_payload())
        }
    }
}

} // verus!
