//! The stored user and the password check that admits a login.

use argon2::PasswordVerifier;
use vstd::prelude::*;

verus! {

/// A stored user. The id is the UUID as its 128-bit big-endian value; the
/// times are Unix microseconds.
#[derive(Debug, Clone, PartialEq, Eq)]
pub struct User {
    pub id: u128,
    pub first_name: Option<String>,
    pub last_name: Option<String>,
    pub email: String,
    pub password: String,
    pub created_at: Option<i64>,
    pub updated_at: Option<i64>,
}

/// Why a login could not be decided.
#[derive(Debug, Clone, Copy, PartialEq, Eq)]
pub enum AuthError {
    /// The stored password hash is not a PHC string.
    MalformedPasswordHash,
}

/// Whether `hash` is a well-formed PHC string (what `password_hash::PasswordHash::new` accepts).
pub uninterp spec fn phc_parses(hash: Seq<char>) -> bool;

/// Whether Argon2, with the algorithm, version, parameters and salt that the
/// PHC string `hash` names, derives from `password` the output that `hash` holds.
pub uninterp spec fn argon2_accepts(password: Seq<u8>, hash: Seq<char>) -> bool;

/// Trusted: `argon2::PasswordHash::new(hash).is_ok()`; it is `phc_parses` of the hash.
#[verifier::external_body]
fn parse_phc(hash: &str) -> (ok: bool)
    ensures
        ok == phc_parses(hash@),
{
    argon2::PasswordHash::new(hash).is_ok()
}

/// Trusted: `Argon2::default().verify_password(password, &hash).is_ok()` on the
/// parsed hash; it is `argon2_accepts` of the password and the hash.
#[verifier::external_body]
fn argon2_verify(password: &[u8], hash: &str) -> (ok: bool)
    requires
        phc_parses(hash@),
    ensures
        ok == argon2_accepts(password@, hash@),
{
    let parsed = argon2::PasswordHash::new(hash).unwrap();
    argon2::Argon2::default().verify_password(password, &parsed).is_ok()
}

/// The outcome of a login for the record found by the email and the password
/// given: no user when none was found or the password does not match, an
/// error when the stored hash is malformed.
pub open spec fn login_result(record: Option<User>, password: Seq<u8>) -> Result<Option<User>, AuthError> {
    match record {
        None => Ok(None),
        Some(u) => if !phc_parses(u.password@) {
            Err(AuthError::MalformedPasswordHash)
        } else if argon2_accepts(password, u.password@) {
            Ok(Some(u))
        } else {
            Ok(None)
        },
    }
}

impl User {
    /// Whether `password` matches the stored hash.
    pub fn verify_password(&self, password: &[u8]) -> (ok: bool)
        requires
            phc_parses(self.password@),
        ensures
            ok == argon2_accepts(password@, self.password@),
    {
        argon2_verify(password, self.password.as_str())
    }

    /// Whether `password` matches the stored hash; none when the hash is malformed.
    pub fn check_password(&self, password: &[u8]) -> (r: Option<bool>)
        ensures
            r == (if phc_parses(self.password@) {
                Some(argon2_accepts(password@, self.password@))
            } else {
                None
            }),
    {
        if parse_phc(self.password.as_str()) {
            Some(self.verify_password(password))
        } else {
            None
        }
    }

    /// The user admitted by a login: the record found by the email, when
    /// `password` matches its stored hash.
    pub fn authenticate(record: Option<User>, password: &[u8]) -> (r: Result<Option<User>, AuthError>)
        ensures
            r == login_result(record, password@),
            record matches Some(u) ==> (phc_parses(u.password@) && argon2_accepts(password@, u.password@)
                ==> r == Ok::<Option<User>, AuthError>(Some(u))),
            record matches Some(u) ==> (phc_parses(u.password@) && !argon2_accepts(password@, u.password@)
                ==> r == Ok::<Option<User>, AuthError>(None)),
            record matches Some(u) ==> (!phc_parses(u.password@)
                ==> r == Err::<Option<User>, AuthError>(AuthError::MalformedPasswordHash)),
            record is None ==> r == Ok::<Option<User>, AuthError>(None),
    {
        match record {
            None => Ok(None),
            Some(user) => match user.check_password(password) {
                None => Err(AuthError::MalformedPasswordHash),
                Some(true) => Ok(Some(user)),
                Some(false) => Ok(None),
            },
        }
    }
}

/// A login admits at most the user that was looked up, and only when the
/// password matches that user's stored hash; a record that is not found admits
/// no one.
pub proof fn lemma_login_admits_only_the_record(record: Option<User>, password: Seq<u8>)
    ensures
        login_result(record, password) matches Ok(Some(u)) ==> record == Some(u)
            && argon2_accepts(password, u.password@),
        record is None ==> login_result(record, password) == Ok::<Option<User>, AuthError>(None),
{
}

/// A found record whose stored hash is a PHC string that accepts the password
/// is admitted, whatever the password's length; one whose hash rejects it is
/// not; a malformed hash is reported.
pub proof fn lemma_login_decided_by_the_stored_hash(u: User, password: Seq<u8>)
    ensures
        phc_parses(u.password@) && argon2_accepts(password, u.password@)
            ==> login_result(Some(u), password) == Ok::<Option<User>, AuthError>(Some(u)),
        phc_parses(u.password@) && !argon2_accepts(password, u.password@)
            ==> login_result(Some(u), password) == Ok::<Option<User>, AuthError>(None),
        !phc_parses(u.password@)
            ==> login_result(Some(u), password) == Err::<Option<User>, AuthError>(AuthError::MalformedPasswordHash),
{
}

} // verus!
