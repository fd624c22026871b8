//! Password hashing.
//!
//! A password is stored as one self-describing string: the parameters of the
//! key derivation, the salt and the digest, so that it can be checked later
//! with nothing else at hand. The salt is made afresh for every hash and owes
//! nothing to the password.

use vstd::prelude::*;
use argon2::{Argon2, PasswordHash, PasswordHasher, PasswordVerifier};
use base64::{prelude::BASE64_STANDARD, Engine};
use password_hash::SaltString;
use uuid::Uuid;

verus! {

/// `password_hash::Error`: why the outside crates refused a salt, a password
/// or a stored hash. The library does not look into it.
#[verifier::external_type_specification]
#[verifier::external_body]
pub struct ExPasswordHashError(password_hash::Error);

/// Why no hash was made, or why a password was not accepted.
#[derive(Debug, Clone, Copy, PartialEq, Eq, Structural)]
pub enum HashError {
    /// The salt could not be made.
    Salt,
    /// The key derivation failed or, on checking, the stored hash could not
    /// be read or does not belong to the password.
    Hash,
}

impl HashError {
    pub open spec fn message_text(self) -> Seq<char> {
        match self {
            HashError::Salt => "failed to create salt"@,
            HashError::Hash => "failed to hash password"@,
        }
    }

    /// The text of the error.
    pub fn message(&self) -> (text: String)
        ensures
            text@ == self.message_text(),
    {
        match self {
            HashError::Salt => "failed to create salt".to_string(),
            HashError::Hash => "failed to hash password".to_string(),
        }
    }
}

pub open spec fn is_lower_hex(c: char) -> bool {
    ('0' <= c && c <= '9') || ('a' <= c && c <= 'f')
}

/// The text of a random (version 4) UUID: 32 lower-case hex digits in groups
/// of 8, 4, 4, 4 and 12 with a hyphen between them, the third group starting
/// with the version, the fourth with the variant.
pub open spec fn is_uuid_text(s: Seq<char>) -> bool {
    &&& s.len() == 36
    &&& forall|i: int|
        0 <= i < 36 ==> if i == 8 || i == 13 || i == 18 || i == 23 {
            s[i] == '-'
        } else {
            is_lower_hex(#[trigger] s[i])
        }
    &&& s[14] == '4'
    &&& s[19] == '8' || s[19] == '9' || s[19] == 'a' || s[19] == 'b'
}

pub open spec fn is_salt_char(c: char) -> bool {
    ||| 'a' <= c && c <= 'z'
    ||| 'A' <= c && c <= 'Z'
    ||| '0' <= c && c <= '9'
    ||| c == '/'
    ||| c == '+'
    ||| c == '.'
    ||| c == '-'
}

/// A text that can serve as a salt: 4 to 64 characters, each a letter, a
/// digit or one of `/`, `+`, `.` and `-`.
pub open spec fn is_salt_text(s: Seq<char>) -> bool {
    &&& 4 <= s.len() <= 64
    &&& forall|i: int| 0 <= i < s.len() ==> is_salt_char(#[trigger] s[i])
}

/// The standard base64 encoding, with padding, of the bytes of a text.
pub uninterp spec fn base64_standard(text: Seq<char>) -> Seq<char>;

/// The hash string that Argon2, with its default parameters, derives from a
/// password and a salt; `None` where it derives none.
pub uninterp spec fn argon2_phc(password: Seq<char>, salt: Seq<char>) -> Option<Seq<char>>;

/// The stored hash can be read and belongs to the password.
pub uninterp spec fn phc_verifies(password: Seq<char>, phc: Seq<char>) -> bool;

/// `Uuid::new_v4`, printed by `to_string`. Assumed: what comes back has the
/// form of a version 4 UUID in lower case with hyphens. Which one it is is
/// random.
#[verifier::external_body]
pub(crate) fn fresh_uuid_text() -> (r: String)
    ensures
        is_uuid_text(r@),
{
    Uuid::new_v4().to_string()
}

/// `Engine::encode` of `BASE64_STANDARD`. Assumed: the result depends on the
/// text alone. Texts whose encoding would not fit the machine's address space
/// are left out, as the encoder panics on them.
#[verifier::external_body]
fn encode_base64(text: &str) -> (r: String)
    requires
        text@.len() <= 0x1000_0000,
    ensures
        r@ == base64_standard(text@),
{
    BASE64_STANDARD.encode(text)
}

/// `SaltString::from_b64`. Assumed: a text is accepted exactly when it has 4
/// to 64 characters, all of them salt characters, and the salt is then the
/// text itself.
#[verifier::external_body]
fn salt_from_b64(text: &str) -> (r: Result<String, password_hash::Error>)
    ensures
        r is Ok <==> is_salt_text(text@),
        r matches Ok(salt) ==> salt@ == text@,
{
    match SaltString::from_b64(text) {
        Ok(salt) => Ok(salt.as_str().to_string()),
        Err(e) => Err(e),
    }
}

/// `PasswordHasher::hash_password` of `Argon2::default()`, printed by
/// `to_string`. Assumed: the result depends on the password and the salt
/// alone, and a hash that was made belongs to its password.
#[verifier::external_body]
fn argon2_hash(password: &str, salt: &str) -> (r: Result<String, password_hash::Error>)
    requires
        is_salt_text(salt@),
    ensures
        r is Ok <==> argon2_phc(password@, salt@) is Some,
        r matches Ok(phc) ==> argon2_phc(password@, salt@) == Some(phc@) && phc_verifies(
            password@,
            phc@,
        ),
{
    let salt = SaltString::from_b64(salt)?;
    match Argon2::default().hash_password(password.as_bytes(), &salt) {
        Ok(hash) => Ok(hash.to_string()),
        Err(e) => Err(e),
    }
}

/// `PasswordVerifier::verify_password` of `Argon2::default()`, on the stored
/// hash as `PasswordHash::try_from` reads it. Assumed: the result depends on
/// the password and the stored hash alone. The comparison of the digests is
/// the outside crate's, in constant time.
#[verifier::external_body]
fn argon2_verify(password: &str, phc: &str) -> (r: Result<(), password_hash::Error>)
    ensures
        r is Ok <==> phc_verifies(password@, phc@),
{
    let parsed = PasswordHash::try_from(phc)?;
    Argon2::default().verify_password(password.as_bytes(), &parsed)
}

/// A text for a salt that no earlier call has handed out: the base64 of a
/// fresh UUID.
pub fn gen_uniq_b64_string() -> (r: String)
    ensures
        exists|u: Seq<char>| is_uuid_text(u) && r@ == #[trigger] base64_standard(u),
{
    let id = fresh_uuid_text();
    encode_base64(id.as_str())
}

/// What hashing a password with a given salt comes to: no salt if the text
/// cannot serve as one, else the hash string, or no hash if the key
/// derivation fails.
pub open spec fn hash_outcome(password: Seq<char>, salt: Seq<char>) -> Result<Seq<char>, HashError> {
    if !is_salt_text(salt) {
        Err(HashError::Salt)
    } else {
        match argon2_phc(password, salt) {
            Some(phc) => Ok(phc),
            None => Err(HashError::Hash),
        }
    }
}

/// The characters of a hash that was made.
pub open spec fn text_of(r: Result<String, HashError>) -> Result<Seq<char>, HashError> {
    match r {
        Ok(s) => Ok(s@),
        Err(e) => Err(e),
    }
}

/// Hashes `password` with the salt `salt`. A hash that is made belongs to the
/// password.
pub fn hash_with_salt(password: &str, salt: &str) -> (r: Result<String, HashError>)
    ensures
        text_of(r) == hash_outcome(password@, salt@),
        r matches Ok(phc) ==> phc_verifies(password@, phc@),
{
    let salt = match salt_from_b64(salt) {
        Ok(salt) => salt,
        Err(_) => {
            return Err(HashError::Salt);
        },
    };
    match argon2_hash(password, salt.as_str()) {
        Ok(phc) => Ok(phc),
        Err(_) => Err(HashError::Hash),
    }
}

/// Hashes `password` with a fresh salt. The salt is the base64 of a new UUID,
/// whatever the password; a hash that is made belongs to the password.
pub fn default_hash_password(password: &str) -> (r: Result<String, HashError>)
    ensures
        exists|u: Seq<char>|
            is_uuid_text(u) && text_of(r) == hash_outcome(password@, #[trigger] base64_standard(u)),
        r matches Ok(phc) ==> phc_verifies(password@, phc@),
{
    let salt = gen_uniq_b64_string();
    hash_with_salt(password, salt.as_str())
}

/// Checks `password` against a stored hash: `Ok` exactly when the hash can be
/// read and belongs to the password.
pub fn verify_pass(password: &str, password_hash: &str) -> (r: Result<(), HashError>)
    ensures
        r == if phc_verifies(password@, password_hash@) {
            Ok::<(), HashError>(())
        } else {
            Err(HashError::Hash)
        },
{
    match argon2_verify(password, password_hash) {
        Ok(()) => Ok(()),
        Err(_) => Err(HashError::Hash),
    }
}

/// A hashing function: from a plaintext to its hash, or to the reason why
/// there is none. `default_hash_password` is one; so is any function or
/// closure of this shape.
pub trait HashFunc: Fn(&str) -> Result<String, HashError> + Send + Sync {

}

impl<F> HashFunc for F where F: Fn(&str) -> Result<String, HashError> + Send + Sync {

}

/// `hasher` can be called on `password`.
pub open spec fn may_hash<H: HashFunc>(hasher: H, password: Seq<char>) -> bool {
    forall|p: &str| p@ == password ==> call_requires(hasher, (p,))
}

/// `out` is something that `hasher` may return for `password`.
pub open spec fn hashes_to<H: HashFunc>(
    hasher: H,
    password: Seq<char>,
    out: Result<String, HashError>,
) -> bool {
    exists|p: &str| p@ == password && call_ensures(hasher, (p,), out)
}

} // verus!
