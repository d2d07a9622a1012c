//! Accounts: credential rules, password hashing and checking (bcrypt), and
//! the bearer token carried by authenticated requests.

use vstd::prelude::*;

use crate::text::{chars_of, owned, starts_with, string_of, strip_prefix, trim, trim_vec};

verus! {

// ---------------------------------------------------------------------------
// Records
// ---------------------------------------------------------------------------

/// Claims of an access token: the user id and the expiry (Unix seconds).
pub struct Claims {
    pub sub: String,
    pub exp: usize,
}

/// The authenticated user's id.
pub struct AuthUser(pub String);

/// A request without valid credentials.
pub struct AuthError;

/// Username and password of a registration or login.
pub struct AuthBody {
    pub username: String,
    pub password: String,
}

/// A successful registration or login.
pub struct AuthOk {
    pub user_id: String,
    pub username: String,
    pub token: String,
}

/// A password change.
pub struct ChangePasswordBody {
    pub old_password: String,
    pub new_password: String,
}

// ---------------------------------------------------------------------------
// Credential rules
// ---------------------------------------------------------------------------

pub open spec fn is_username_char(c: char) -> bool {
    ('a' <= c <= 'z') || ('A' <= c <= 'Z') || ('0' <= c <= '9') || c == '_' || c == '-' || c == '.'
        || c == '@' || c == '+'
}

/// Why a registration is refused, if it is: a trimmed username of 3 to 128
/// bytes made of ASCII letters, digits and `_ - . @ +`, and a password of 6
/// to 128 characters.
pub open spec fn credential_error(username: Seq<char>, password: Seq<char>) -> Option<Seq<char>> {
    let u = trim(username);
    let n = vstd::utf8::encode_utf8(u).len();
    if n < 3 || n > 128 {
        Some("用户名长度 3-128"@)
    } else if !(forall|i: int| 0 <= i < u.len() ==> is_username_char(#[trigger] u[i])) {
        Some("用户名只能是字母、数字、下划线、短横线、点、@、+"@)
    } else if password.len() < 6 || password.len() > 128 {
        Some("密码长度 6-128"@)
    } else {
        None
    }
}

/// Check a registration's credentials (see `credential_error`).
pub fn validate_body(body: &AuthBody) -> (r: Result<(), &'static str>)
    ensures
        match credential_error(body.username@, body.password@) {
            Some(m) => r matches Err(e) && e@ == m,
            None => r is Ok,
        },
{
    let u = string_of(&trim_vec(&chars_of(body.username.as_str())));
    let n = u.as_str().as_bytes().len();
    if n < 3 || n > 128 {
        return Err("用户名长度 3-128");
    }
    let cs = chars_of(u.as_str());
    let mut i: usize = 0;
    while i < cs.len()
        invariant
            i <= cs@.len(),
            cs@ == trim(body.username@),
            3 <= vstd::utf8::encode_utf8(trim(body.username@)).len() <= 128,
            forall|j: int| 0 <= j < i ==> is_username_char(#[trigger] cs@[j]),
        decreases cs.len() - i,
    {
        let c = cs[i];
        if !(('a' <= c && c <= 'z') || ('A' <= c && c <= 'Z') || ('0' <= c && c <= '9') || c == '_'
            || c == '-' || c == '.' || c == '@' || c == '+') {
            assert(!is_username_char(cs@[i as int]));
            return Err("用户名只能是字母、数字、下划线、短横线、点、@、+");
        }
        i = i + 1;
    }
    let p = chars_of(body.password.as_str()).len();
    if p < 6 || p > 128 {
        return Err("密码长度 6-128");
    }
    Ok(())
}

/// Why a password change is refused before the old password is checked, if
/// it is: the new password must have 6 to 128 characters and differ from
/// the old one.
pub open spec fn new_password_error(old: Seq<char>, new: Seq<char>) -> Option<Seq<char>> {
    if new.len() < 6 || new.len() > 128 {
        Some("新密码长度必须在 6-128 之间"@)
    } else if old == new {
        Some("新密码不能和旧密码相同"@)
    } else {
        None
    }
}

/// Check a password change (see `new_password_error`).
pub fn check_new_password(body: &ChangePasswordBody) -> (r: Option<&'static str>)
    ensures
        match new_password_error(body.old_password@, body.new_password@) {
            Some(m) => r matches Some(e) && e@ == m,
            None => r is None,
        },
{
    let n = chars_of(body.new_password.as_str()).len();
    if n < 6 || n > 128 {
        return Some("新密码长度必须在 6-128 之间");
    }
    if body.old_password == body.new_password {
        return Some("新密码不能和旧密码相同");
    }
    None
}

/// The token of an `Authorization` header: the trimmed text after
/// "Bearer ", when not empty.
pub open spec fn bearer_of(header: Option<Seq<char>>) -> Option<Seq<char>> {
    match header {
        Some(h) => match strip_prefix(h, "Bearer "@) {
            Some(t) => if trim(t).len() > 0 {
                Some(trim(t))
            } else {
                None
            },
            None => None,
        },
        None => None,
    }
}

/// The bearer token of a request (see `bearer_of`).
pub fn bearer_token(header: Option<&str>) -> (r: Option<String>)
    ensures
        match bearer_of(
            match header {
                Some(h) => Some(h@),
                None => None,
            },
        ) {
            Some(t) => r matches Some(x) && x@ == t,
            None => r is None,
        },
{
    match header {
        Some(h) => match crate::text::strip_prefix_str(&chars_of(h), "Bearer ") {
            Some(t) => {
                let tt = trim_vec(&t);
                if tt.len() > 0 {
                    Some(string_of(&tt))
                } else {
                    None
                }
            },
            None => None,
        },
        None => None,
    }
}

// ---------------------------------------------------------------------------
// Password hashing
// ---------------------------------------------------------------------------

#[verifier::external_type_specification]
#[verifier::external_body]
pub struct ExBcryptError(bcrypt::BcryptError);

/// What `bcrypt::verify(password, hash)` returns for a password (its UTF-8
/// bytes) and a stored hash: whether they match, or none when the hash is
/// malformed.
pub uninterp spec fn bcrypt_check(password: Seq<char>, hash: Seq<char>) -> Option<bool>;

/// The head of a bcrypt hash string in the `2b` format at a two-digit cost:
/// `$2b$`, the cost padded to two digits, `$`.
pub open spec fn bcrypt_prefix(cost: u32) -> Seq<char> {
    "$2b$"@ + seq![((48 + cost / 10) as u8) as char, ((48 + cost % 10) as u8) as char] + "$"@
}

/// `bcrypt::hash(password, cost)`: a salted hash with a fresh random salt
/// taken from the OS (the call fails only where the OS gives no random
/// bytes, so success is not stated). Of a returned hash this is stated: it
/// verifies against the password it was made from (`verify` re-hashes the
/// password with the hash's own salt and cost and compares), and it is the
/// 60-character `2b` string that begins with the cost it was made at (the
/// crate formats `$2b$`, the cost as two digits, `$`, 22 characters of salt
/// and 31 of hash). Costs outside 4–31 are refused by the crate and
/// excluded here.
#[verifier::external_body]
fn bcrypt_hash(password: &str, cost: u32) -> (r: Result<String, bcrypt::BcryptError>)
    requires
        4 <= cost <= 31,
    ensures
        r matches Ok(h) ==> bcrypt_check(password@, h@) == Some(true),
        r matches Ok(h) ==> h@.len() == 60 && h@.subrange(0, 7) == bcrypt_prefix(cost),
{
    bcrypt::hash(password, cost)
}

/// `bcrypt::verify(password, hash)`: `Ok(matches)` or an error for a
/// malformed hash, as `bcrypt_check` names it.
#[verifier::external_body]
fn bcrypt_verify(password: &str, hash: &str) -> (r: Result<bool, bcrypt::BcryptError>)
    ensures
        match r {
            Ok(b) => bcrypt_check(password@, hash@) == Some(b),
            Err(_) => bcrypt_check(password@, hash@) is None,
        },
{
    bcrypt::verify(password, hash)
}

/// A password hash could not be made.
pub struct HashFailure;

/// The stored hash of a password (bcrypt at its default cost, 12); it
/// always verifies against that password. It fails only where the OS gives
/// the hashing crate no random salt.
pub fn hash_password(plain: &str) -> (r: Result<String, HashFailure>)
    ensures
        r matches Ok(h) ==> bcrypt_check(plain@, h@) == Some(true),
        r matches Ok(h) ==> h@.len() == 60 && h@.subrange(0, 7) == bcrypt_prefix(12),
{
    match bcrypt_hash(plain, 12) {
        Ok(h) => Ok(h),
        Err(_) => Err(HashFailure),
    }
}

/// Whether a password matches a stored hash; a malformed hash matches
/// nothing.
pub fn verify_password(plain: &str, hash: &str) -> (r: bool)
    ensures
        r == (bcrypt_check(plain@, hash@) == Some(true)),
{
    match bcrypt_verify(plain, hash) {
        Ok(b) => b,
        Err(_) => false,
    }
}

} // verus!
