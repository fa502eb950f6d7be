//! Input validation shared by sign-up and sign-in.

use crate::error::ServerError;
use vstd::prelude::*;
use vstd::utf8::encode_utf8;

verus! {

/// Shortest password, in bytes, that the service accepts.
pub const MIN_LEN_PASSOWRD: usize = 6;

/// Name of the cookie that carries the session id.
pub const SESSION_KEY: &'static str = "ssid";

/// An ASCII letter.
pub open spec fn is_letter(b: u8) -> bool {
    (0x41 <= b <= 0x5a) || (0x61 <= b <= 0x7a)
}

/// An ASCII digit.
pub open spec fn is_digit(b: u8) -> bool {
    0x30 <= b <= 0x39
}

/// A byte allowed before the `@`: a letter, a digit or one of `._%+-`.
pub open spec fn is_local_byte(b: u8) -> bool {
    is_letter(b) || is_digit(b) || b == 0x2e || b == 0x5f || b == 0x25 || b == 0x2b || b == 0x2d
}

/// A byte allowed in the domain: a letter, a digit, `.` or `-`.
pub open spec fn is_domain_byte(b: u8) -> bool {
    is_letter(b) || is_digit(b) || b == 0x2e || b == 0x2d
}

/// `s` is an address whose `@` stands at `at` and whose last dot stands at
/// `dot`: a non-empty local part, a non-empty domain, and a top-level label
/// of at least two letters.
pub open spec fn email_split(s: Seq<u8>, at: int, dot: int) -> bool {
    &&& 0 < at
    &&& at + 1 < dot
    &&& dot + 2 < s.len()
    &&& s[at] == 0x40
    &&& s[dot] == 0x2e
    &&& forall|i: int| 0 <= i < at ==> is_local_byte(#[trigger] s[i])
    &&& forall|i: int| at < i < dot ==> is_domain_byte(#[trigger] s[i])
    &&& forall|i: int| dot < i < s.len() ==> is_letter(#[trigger] s[i])
}

/// The addresses the service accepts, as UTF-8 bytes:
/// `local@domain.tld` with the byte classes above.
pub open spec fn email_shape(s: Seq<u8>) -> bool {
    exists|at: int, dot: int| email_split(s, at, dot)
}

/// A password is acceptable when it has at least [`MIN_LEN_PASSOWRD`] bytes.
pub open spec fn password_shape(s: Seq<u8>) -> bool {
    s.len() >= MIN_LEN_PASSOWRD
}

/// The text is an accepted address.
pub open spec fn valid_email(text: Seq<char>) -> bool {
    email_shape(encode_utf8(text))
}

/// The text is long enough for a password.
pub open spec fn valid_password(text: Seq<char>) -> bool {
    password_shape(encode_utf8(text))
}

/// `password_hash::SaltString`: a salt in its text form. Carried through
/// unread.
#[verifier::external_type_specification]
#[verifier::external_body]
pub struct ExSaltString(argon2::password_hash::SaltString);

/// `password_hash::Error`: why hashing or reading a hash failed. Carried
/// through unread.
#[verifier::external_type_specification]
#[verifier::external_body]
pub struct ExHashError(argon2::password_hash::Error);

/// What checking `password` against the stored text `hash` gives with
/// Argon2 in its default setting: `None` when `hash` is no hash string in
/// the PHC format, else whether the password matches.
pub uninterp spec fn hash_accepts(password: Seq<char>, hash: Seq<char>) -> Option<bool>;

/// `SaltString::generate` on the operating system's random source.
/// Nothing is promised of the salt.
#[verifier::external_body]
fn fresh_salt() -> (r: argon2::password_hash::SaltString) {
    argon2::password_hash::SaltString::generate(&mut argon2::password_hash::rand_core::OsRng)
}

/// `PasswordHasher::hash_password` of `Argon2::default()`, with the hash
/// written out as its PHC string.
/// Trusted: a hash that it gives is one that the verifier accepts for the
/// same password, since the string carries the salt and the parameters
/// that the verifier computes with.
#[verifier::external_body]
fn argon2_hash(password: &str, salt: &argon2::password_hash::SaltString) -> (r: Result<
    String,
    argon2::password_hash::Error,
>)
    ensures
        r matches Ok(hash) ==> hash_accepts(password@, hash@) == Some(true),
{
    argon2::PasswordHasher::hash_password(&argon2::Argon2::default(), password.as_bytes(), salt)
        .map(|hash| hash.to_string())
}

/// `PasswordHash::new` on `hash`, then `PasswordVerifier::verify_password`
/// of `Argon2::default()` on what it gives.
/// Trusted: the outcome depends on the two texts alone; it is an error
/// exactly when `hash` cannot be read.
#[verifier::external_body]
fn argon2_verify(password: &str, hash: &str) -> (r: Result<bool, argon2::password_hash::Error>)
    ensures
        r matches Ok(matches) ==> hash_accepts(password@, hash@) == Some(matches),
        r is Err ==> hash_accepts(password@, hash@) is None,
{
    argon2::PasswordHash::new(hash).map(
        |parsed|
            argon2::PasswordVerifier::verify_password(
                &argon2::Argon2::default(),
                password.as_bytes(),
                &parsed,
            ).is_ok(),
    )
}

/// The `Display` of `password_hash::Error`. Nothing is promised of the text.
#[verifier::external_body]
fn hash_error_text(e: &argon2::password_hash::Error) -> (r: String) {
    e.to_string()
}

fn letter(b: u8) -> (r: bool)
    ensures
        r == is_letter(b),
{
    (0x41 <= b && b <= 0x5a) || (0x61 <= b && b <= 0x7a)
}

fn local_byte(b: u8) -> (r: bool)
    ensures
        r == is_local_byte(b),
{
    letter(b) || (0x30 <= b && b <= 0x39) || b == 0x2e || b == 0x5f || b == 0x25 || b == 0x2b
        || b == 0x2d
}

fn domain_byte(b: u8) -> (r: bool)
    ensures
        r == is_domain_byte(b),
{
    letter(b) || (0x30 <= b && b <= 0x39) || b == 0x2e || b == 0x2d
}

/// Whether `password` is long enough.
pub fn is_valid_password(password: &str) -> (r: bool)
    ensures
        r == valid_password(password@),
{
    password.as_bytes().len() >= MIN_LEN_PASSOWRD
}

/// Whether `email` is an accepted address. Never fails.
pub fn is_valid_email(email: &str) -> (r: Result<bool, ServerError>)
    ensures
        r == Ok::<bool, ServerError>(valid_email(email@)),
{
    Ok(is_email_bytes(email.as_bytes()))
}

/// Hashes `password` under a fresh random salt. A hash that comes back is
/// accepted for `password`; a failure of the hasher is an internal failure.
pub fn hash_password(password: &str) -> (r: Result<String, ServerError>)
    ensures
        r matches Ok(hash) ==> hash_accepts(password@, hash@) == Some(true),
        r matches Err(e) ==> e is InternalServerError,
{
    let salt = fresh_salt();
    hashed(argon2_hash(password, &salt))
}

/// What the hasher's outcome means for the caller.
fn hashed(outcome: Result<String, argon2::password_hash::Error>) -> (r: Result<String, ServerError>)
    ensures
        outcome matches Ok(hash) ==> r == Ok::<String, ServerError>(hash),
        outcome is Err ==> (r matches Err(e) && e is InternalServerError),
{
    match outcome {
        Ok(hash) => Ok(hash),
        Err(e) => Err(ServerError::InternalServerError(hash_error_text(&e))),
    }
}

/// What checking `password` against `hash` must answer.
pub open spec fn verified(password: Seq<char>, hash: Seq<char>, r: Result<bool, ServerError>) -> bool {
    match hash_accepts(password, hash) {
        Some(matches) => r == Ok::<bool, ServerError>(matches),
        None => r matches Err(e) && e is InternalServerError,
    }
}

/// Checks `password` against a stored hash. A text that is no hash is an
/// internal failure; a password that does not match is `Ok(false)`.
pub fn verify_password(password: &str, hash: &str) -> (r: Result<bool, ServerError>)
    ensures
        verified(password@, hash@, r),
{
    match argon2_verify(password, hash) {
        Ok(matches) => Ok(matches),
        Err(e) => Err(ServerError::InternalServerError(hash_error_text(&e))),
    }
}

/// Between an `@` at `at` and a dot at `dot` stands a non-empty domain
/// whose bytes are domain bytes as far as `upto`, and after the dot stand
/// at least two bytes.
spec fn domain_until(s: Seq<u8>, at: int, dot: int, upto: int) -> bool {
    &&& at + 1 < dot
    &&& dot + 2 < s.len()
    &&& s[dot] == 0x2e
    &&& forall|i: int| at < i < upto ==> is_domain_byte(#[trigger] s[i])
}

/// The `@` of an address stands where its longest run of local bytes
/// ends.
proof fn lemma_at_place(s: Seq<u8>, at: int, a: int, d: int)
    requires
        0 <= at <= s.len(),
        forall|i: int| 0 <= i < at ==> is_local_byte(#[trigger] s[i]),
        at < s.len() ==> !is_local_byte(s[at]),
        email_split(s, a, d),
    ensures
        a == at,
{
    if a < at {
        assert(is_local_byte(s[a]));
    } else if a > at {
        assert(is_local_byte(s[at]));
    }
}

/// The last dot of an address stands just before its longest run of
/// closing letters.
proof fn lemma_dot_place(s: Seq<u8>, dot: int, a: int, d: int)
    requires
        0 <= dot < s.len(),
        forall|i: int| dot < i < s.len() ==> is_letter(#[trigger] s[i]),
        !is_letter(s[dot]),
        a <= dot,
        email_split(s, a, d),
    ensures
        d == dot,
{
    if d < dot {
        assert(is_letter(s[dot]));
    } else if d > dot {
        assert(is_letter(s[d]));
    }
}

/// Whether `bytes` spell an accepted address.
pub fn is_email_bytes(bytes: &[u8]) -> (r: bool)
    ensures
        r == email_shape(bytes@),
{
    let n: usize = bytes.len();
    let mut at: usize = 0;
    while at < n && local_byte(bytes[at])
        invariant
            at <= n,
            n == bytes@.len(),
            forall|i: int| 0 <= i < at ==> is_local_byte(#[trigger] bytes@[i]),
        decreases n - at,
    {
        at = at + 1;
    }
    if at == 0 || at >= n || bytes[at] != 0x40 {
        proof {
            assert forall|a: int, d: int| !email_split(bytes@, a, d) by {
                if email_split(bytes@, a, d) {
                    lemma_at_place(bytes@, at as int, a, d);
                }
            }
        }
        return false;
    }
    let mut dot: usize = n - 1;
    while dot > at && letter(bytes[dot])
        invariant
            at <= dot < n,
            n == bytes@.len(),
            bytes@[at as int] == 0x40,
            forall|i: int| dot < i < n ==> is_letter(#[trigger] bytes@[i]),
        decreases dot,
    {
        dot = dot - 1;
    }
    let mut domain_ok = dot - at >= 2 && n - dot >= 3 && bytes[dot] == 0x2e;
    let mut k: usize = at + 1;
    while domain_ok && k < dot
        invariant
            at < k,
            dot < n,
            n == bytes@.len(),
            domain_ok ==> k <= dot && domain_until(bytes@, at as int, dot as int, k as int),
            !domain_ok ==> !domain_until(bytes@, at as int, dot as int, dot as int),
        decreases dot - k, domain_ok as int,
    {
        if domain_byte(bytes[k]) {
            k = k + 1;
        } else {
            domain_ok = false;
        }
    }
    proof {
        if domain_ok {
            assert(email_split(bytes@, at as int, dot as int));
        } else {
            assert forall|a: int, d: int| !email_split(bytes@, a, d) by {
                if email_split(bytes@, a, d) {
                    lemma_at_place(bytes@, at as int, a, d);
                    lemma_dot_place(bytes@, dot as int, a, d);
                }
            }
        }
    }
    domain_ok
}

} // verus!
