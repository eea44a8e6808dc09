use vstd::prelude::*;
use vstd::string::StrSliceExecFns;

use crate::encoding::{base64_decode, base64_decode_str, utf8_decode, utf8_to_string};
use crate::errors::AppError;
use crate::models::{Credential, User};

verus! {

/// What bcrypt's `verify` returns for a given password and stored hash:
/// whether the password matches, or nothing when the hash is not a
/// well-formed bcrypt hash.
pub uninterp spec fn bcrypt_verify(password: Seq<char>, hash: Seq<char>) -> Option<bool>;

/// Relies on bcrypt::hash with the default cost: the returned hash carries
/// a fresh random salt, so two calls on one password may differ; it is
/// well-formed, bcrypt::verify parses it for any password, and accepts
/// exactly the hashed password against it.
#[verifier::external_body]
pub fn hash_password(password: &str) -> (r: Result<String, AppError>)
    ensures
        r matches Ok(h) ==> ({
            &&& bcrypt_verify(password@, h@) == Some(true)
            &&& forall|p: Seq<char>| (#[trigger] bcrypt_verify(p, h@)) is Some
        }),
        r matches Err(e) ==> e is HashingError,
{
    match bcrypt::hash(password, bcrypt::DEFAULT_COST) {
        Ok(h) => Ok(h),
        Err(_) => Err(AppError::HashingError),
    }
}

/// Relies on bcrypt::verify: deterministic in the password and the hash,
/// true exactly when the password matches the salted hash, and failing
/// only on a hash that is not a well-formed bcrypt hash.
#[verifier::external_body]
pub fn verify_password(password: &str, hash: &str) -> (r: Result<bool, AppError>)
    ensures
        match r {
            Ok(b) => bcrypt_verify(password@, hash@) == Some(b),
            Err(e) => bcrypt_verify(password@, hash@) is None && e is HashingError,
        },
{
    match bcrypt::verify(password, hash) {
        Ok(b) => Ok(b),
        Err(_) => Err(AppError::HashingError),
    }
}

/// True exactly when the two strings hold the same characters.
fn str_eq(a: &str, b: &str) -> (r: bool)
    ensures
        r == (a@ == b@),
{
    let sa = a.to_owned();
    let sb = b.to_owned();
    sa == sb
}

/// The Authorization value starts with the HTTP Basic scheme prefix.
pub open spec fn has_basic_scheme(h: Seq<char>) -> bool {
    h.len() >= 6 && h.subrange(0, 6) == "Basic "@
}

/// The base64 payload after the scheme prefix.
pub open spec fn basic_payload(h: Seq<char>) -> Seq<char> {
    h.subrange(6, h.len() as int)
}

/// The position of the first colon in the text, or -1 when there is none.
pub open spec fn first_colon(s: Seq<char>) -> int
    decreases s.len(),
{
    if s.len() == 0 {
        -1
    } else if s[0] == ':' {
        0
    } else if first_colon(s.drop_first()) < 0 {
        -1
    } else {
        1 + first_colon(s.drop_first())
    }
}

proof fn lemma_first_colon_at(s: Seq<char>, i: int)
    requires
        0 <= i < s.len(),
        s[i] == ':',
        forall|j: int| 0 <= j < i ==> s[j] != ':',
    ensures
        first_colon(s) == i,
    decreases i,
{
    if i > 0 {
        let t = s.drop_first();
        assert forall|j: int| 0 <= j < i - 1 implies t[j] != ':' by {
            assert(t[j] == s[j + 1]);
        }
        assert(t[i - 1] == s[i]);
        lemma_first_colon_at(t, i - 1);
    }
}

proof fn lemma_first_colon_none(s: Seq<char>)
    requires
        forall|j: int| 0 <= j < s.len() ==> s[j] != ':',
    ensures
        first_colon(s) == -1,
    decreases s.len(),
{
    if s.len() > 0 {
        let t = s.drop_first();
        assert forall|j: int| 0 <= j < t.len() implies t[j] != ':' by {
            assert(t[j] == s[j + 1]);
        }
        lemma_first_colon_none(t);
    }
}

/// Exactly what decoding an Authorization value returns, step by step: a
/// missing header and a missing scheme are unauthorized, bad base64, bad
/// UTF-8 and a missing colon are bad requests, and otherwise the text
/// before the first colon is the username and the text after it the
/// password.
pub open spec fn decode_post(header: Option<&str>, r: Result<Credential, AppError>) -> bool {
    match header {
        None => r matches Err(e) && e matches AppError::Unauthorized(m) && m@
            == "Missing Authorization header"@,
        Some(h) => if !has_basic_scheme(h@) {
            r matches Err(e) && e matches AppError::Unauthorized(m) && m@
                == "Invalid authentication scheme"@
        } else {
            match base64_decode(basic_payload(h@)) {
                None => r matches Err(e) && e matches AppError::BadRequest(m) && m@
                    == "Invalid Base64 in credentials"@,
                Some(bs) => match utf8_decode(bs) {
                    None => r matches Err(e) && e matches AppError::BadRequest(m) && m@
                        == "Invalid UTF-8 in credentials"@,
                    Some(t) => if first_colon(t) < 0 {
                        r matches Err(e) && e matches AppError::BadRequest(m) && m@
                            == "Missing password"@
                    } else {
                        r matches Ok(c) && c.username@ == t.subrange(0, first_colon(t))
                            && c.password@ == t.subrange(first_colon(t) + 1, t.len() as int)
                    },
                },
            }
        },
    }
}

/// Parses an HTTP Authorization value into Basic credentials: checks the
/// scheme prefix, base64-decodes the payload, decodes it as UTF-8, and
/// splits the text at its first colon. An empty username or password is
/// accepted here; rejecting one is the caller's concern.
pub fn decode_basic_auth_header(header: Option<&str>) -> (r: Result<Credential, AppError>)
    ensures
        decode_post(header, r),
{
    let h = match header {
        Some(h) => h,
        None => {
            return Err(AppError::Unauthorized("Missing Authorization header".to_owned()));
        },
    };
    let hlen = h.unicode_len();
    if hlen < 6 {
        return Err(AppError::Unauthorized("Invalid authentication scheme".to_owned()));
    }
    let prefix = h.substring_char(0, 6);
    if !str_eq(prefix, "Basic ") {
        return Err(AppError::Unauthorized("Invalid authentication scheme".to_owned()));
    }
    let rest = h.substring_char(6, hlen);
    let bytes = match base64_decode_str(rest) {
        Some(b) => b,
        None => {
            return Err(AppError::BadRequest("Invalid Base64 in credentials".to_owned()));
        },
    };
    let text = match utf8_to_string(bytes) {
        Some(t) => t,
        None => {
            return Err(AppError::BadRequest("Invalid UTF-8 in credentials".to_owned()));
        },
    };
    let tlen = text.as_str().unicode_len();
    let mut i: usize = 0;
    #[verifier::loop_isolation(false)]
    while i < tlen
        invariant
            i <= tlen,
            forall|j: int| 0 <= j < i ==> text@[j] != ':',
        decreases tlen - i,
    {
        if text.as_str().get_char(i) == ':' {
            let username = text.as_str().substring_char(0, i).to_owned();
            let password = text.as_str().substring_char(i + 1, tlen).to_owned();
            proof {
                lemma_first_colon_at(text@, i as int);
            }
            return Ok(Credential { username, password });
        }
        i = i + 1;
    }
    proof {
        lemma_first_colon_none(text@);
    }
    Err(AppError::BadRequest("Missing password".to_owned()))
}

/// The unified rejection of a failed user authentication. Its message does
/// not tell an unknown username apart from a wrong password, so a caller
/// cannot probe which accounts exist.
pub open spec fn is_unauthorized_user_error(r: Result<User, AppError>) -> bool {
    r matches Err(e) && e matches AppError::Unauthorized(m) && m@
        == "Invalid username or password"@
}

/// Exactly what user authentication returns: an absent user and a wrong
/// password both yield the unified unauthorized error, a malformed stored
/// hash is a hashing failure, and a matching password returns the record.
pub open spec fn authenticate_user_post(
    credential: &Credential,
    user: Option<User>,
    r: Result<User, AppError>,
) -> bool {
    match user {
        None => is_unauthorized_user_error(r),
        Some(u) => match bcrypt_verify(credential.password@, u.password_hash@) {
            None => r matches Err(e) && e is HashingError,
            Some(matched) => if matched {
                r matches Ok(ru) && ru == u
            } else {
                is_unauthorized_user_error(r)
            },
        },
    }
}

/// Law: an unknown username and a known username with a wrong password are
/// rejected with one and the same unauthorized error, so the outcome of an
/// authentication attempt reveals nothing about which accounts exist.
pub proof fn lemma_uniform_rejection(
    c1: &Credential,
    c2: &Credential,
    u: User,
    r1: Result<User, AppError>,
    r2: Result<User, AppError>,
)
    requires
        authenticate_user_post(c1, None, r1),
        authenticate_user_post(c2, Some(u), r2),
        bcrypt_verify(c2.password@, u.password_hash@) == Some(false),
    ensures
        is_unauthorized_user_error(r1),
        is_unauthorized_user_error(r2),
{
}

/// Checks a decoded credential against the user record, if any, that the
/// surrounding system looked up under the credential's username. An absent
/// user and a wrong password are rejected with one and the same message.
pub fn authenticate_user(credential: &Credential, user: Option<User>) -> (r: Result<
    User,
    AppError,
>)
    ensures
        authenticate_user_post(credential, user, r),
{
    let u = match user {
        Some(u) => u,
        None => {
            return Err(AppError::Unauthorized("Invalid username or password".to_owned()));
        },
    };
    let matched = match verify_password(credential.password.as_str(), u.password_hash.as_str()) {
        Ok(b) => b,
        Err(e) => {
            return Err(e);
        },
    };
    if !matched {
        return Err(AppError::Unauthorized("Invalid username or password".to_owned()));
    }
    Ok(u)
}

/// Exactly what operator authorization returns: each decoding failure is
/// reported as decoding reports it, and a decoded pair succeeds exactly
/// when both fields equal the configured operator pair, failing as
/// forbidden otherwise.
pub open spec fn admin_post(
    header: Option<&str>,
    admin_username: &str,
    admin_password: &str,
    r: Result<(), AppError>,
) -> bool {
    match header {
        None => r matches Err(e) && e matches AppError::Unauthorized(m) && m@
            == "Missing Authorization header"@,
        Some(h) => if !has_basic_scheme(h@) {
            r matches Err(e) && e matches AppError::Unauthorized(m) && m@
                == "Invalid authentication scheme"@
        } else {
            match base64_decode(basic_payload(h@)) {
                None => r matches Err(e) && e matches AppError::BadRequest(m) && m@
                    == "Invalid Base64 in credentials"@,
                Some(bs) => match utf8_decode(bs) {
                    None => r matches Err(e) && e matches AppError::BadRequest(m) && m@
                        == "Invalid UTF-8 in credentials"@,
                    Some(t) => if first_colon(t) < 0 {
                        r matches Err(e) && e matches AppError::BadRequest(m) && m@
                            == "Missing password"@
                    } else {
                        let u = t.subrange(0, first_colon(t));
                        let p = t.subrange(first_colon(t) + 1, t.len() as int);
                        if u == admin_username@ && p == admin_password@ {
                            r is Ok
                        } else {
                            r matches Err(e) && e matches AppError::Forbidden(m) && m@
                                == "You are not authorized to perform this action."@
                        }
                    },
                },
            }
        },
    }
}

/// Authorizes a privileged operator: decodes Basic credentials from the
/// Authorization value and compares both fields against the configured
/// operator pair. The comparison is plain equality over plaintext secrets,
/// not a constant-time comparison — a known limitation of this design.
pub fn authenticate_admin(
    header: Option<&str>,
    admin_username: &str,
    admin_password: &str,
) -> (r: Result<(), AppError>)
    ensures
        admin_post(header, admin_username, admin_password, r),
{
    let credential = match decode_basic_auth_header(header) {
        Ok(c) => c,
        Err(e) => {
            return Err(e);
        },
    };
    let name_ok = str_eq(credential.username.as_str(), admin_username);
    let pass_ok = str_eq(credential.password.as_str(), admin_password);
    if name_ok && pass_ok {
        Ok(())
    } else {
        Err(AppError::Forbidden("You are not authorized to perform this action.".to_owned()))
    }
}

} // verus!
