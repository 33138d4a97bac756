//! Password hashing and verification, built on the bcrypt crate.
//!
//! A stored credential is a self-describing bcrypt hash string: version
//! prefix, cost, salt and digest. Hashing draws a fresh random salt, so two
//! hashes of one password differ; verification re-derives the digest from
//! the parameters embedded in the stored string and is a pure function of
//! the password and that string.

use vstd::prelude::*;

verus! {

/// Work factor applied to every hash this library produces.
pub const HASH_COST: u32 = 12;

/// The outcome of bcrypt's check of a password against a stored hash
/// string: `Some(true)` when the password matches, `Some(false)` when it
/// does not, and `None` when the stored string is not a well-formed bcrypt
/// hash (or embeds a cost outside bcrypt's allowed range). The outcome
/// depends on the two strings alone.
pub uninterp spec fn bcrypt_check(password: Seq<char>, hashed: Seq<char>) -> Option<bool>;

/// A password matches a stored hash exactly when bcrypt's check succeeds
/// and reports a match.
pub open spec fn password_matches(password: Seq<char>, hashed: Seq<char>) -> bool {
    bcrypt_check(password, hashed) == Some(true)
}

/// The version prefix that opens every hash string this library produces.
pub open spec fn bcrypt_version_prefix() -> Seq<char> {
    "$2b$"@
}

#[verifier::external_type_specification]
#[verifier::external_body]
pub struct ExBcryptError(bcrypt::BcryptError);

/// Relies on bcrypt::hash: a fresh random salt, then the bcrypt digest of
/// the password at the given cost, formatted as the 60-character hash
/// string with the `$2b$` version prefix. The result verifies against the
/// password it was produced for; a cost outside bcrypt's 4..=31 range is
/// rejected, and drawing the salt from the operating system's randomness
/// source can fail.
#[verifier::external_body]
fn bcrypt_hash(password: &str, cost: u32) -> (r: Result<String, bcrypt::BcryptError>)
    ensures
        r is Ok ==> bcrypt_check(password@, r->Ok_0@) == Some(true),
        r is Ok ==> r->Ok_0@.len() == 60,
        r is Ok ==> r->Ok_0@.subrange(0, 4) == bcrypt_version_prefix(),
        cost < 4 || cost > 31 ==> r is Err,
{
    bcrypt::hash(password, cost)
}

/// Relies on bcrypt::verify: re-derives the digest with the salt and cost
/// embedded in the stored string and compares. `None` stands for bcrypt's
/// error on a malformed stored string; the call never panics.
#[verifier::external_body]
fn bcrypt_verify(password: &str, hashed: &str) -> (r: Option<bool>)
    ensures
        r == bcrypt_check(password@, hashed@),
{
    match bcrypt::verify(password, hashed) {
        Ok(matched) => Some(matched),
        Err(_) => None,
    }
}

/// Relies on the Display impl of bcrypt::BcryptError for a human-readable
/// message; nothing about the text itself is relied upon.
#[verifier::external_body]
fn bcrypt_error_message(e: &bcrypt::BcryptError) -> String {
    e.to_string()
}

/// Hashes `password` with bcrypt at `HASH_COST`. Every hash handed back
/// matches the password it was produced for, is 60 characters long, and
/// opens with the bcrypt version prefix. On failure (the randomness source
/// refusing a salt) the underlying error's display text is returned.
pub fn hash_password(password: String) -> (r: Result<String, String>)
    ensures
        r is Ok ==> password_matches(password@, r->Ok_0@),
        r is Ok ==> r->Ok_0@.len() == 60,
        r is Ok ==> r->Ok_0@.subrange(0, 4) == bcrypt_version_prefix(),
{
    match bcrypt_hash(password.as_str(), HASH_COST) {
        Ok(hashed) => Ok(hashed),
        Err(e) => Err(bcrypt_error_message(&e)),
    }
}

/// Checks `password` against the stored `hash` string. Returns `true`
/// exactly when bcrypt reports a match; a malformed stored string yields
/// `false`, never an error, so a wrong password and a corrupt hash are not
/// distinguishable from the result alone.
pub fn verify_password(password: String, hash: String) -> (r: bool)
    ensures
        r == password_matches(password@, hash@),
        bcrypt_check(password@, hash@) is None ==> r == false,
{
    match bcrypt_verify(password.as_str(), hash.as_str()) {
        Some(matched) => matched,
        None => false,
    }
}

/// Round-trip law: verifying a password against a hash produced for it
/// yields `true`. `hash_password` ensures `password_matches` of every hash
/// it returns, and `verify_password` returns exactly `password_matches`,
/// so checking a password against its own fresh hash must come out `true`.
pub proof fn lemma_hash_verify_round_trip(password: Seq<char>, hashed: Seq<char>)
    requires
        password_matches(password, hashed),
    ensures
        bcrypt_check(password, hashed) == Some(true),
{
}

} // verus!
