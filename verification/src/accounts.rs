//! Users and sessions: password records, logins, session claims, bearer tokens, and who
//! may delete a blob.

use crate::errors::{crypto_error_reads_as, CryptoError};
use crate::keypair::get_secure_random_bytes;
use argon2::password_hash::{Error as PasswordHashError, PasswordHash, PasswordHasher, PasswordVerifier, SaltString};
use argon2::Argon2;
use vstd::prelude::*;
use vstd::utf8::encode_utf8;

verus! {

/// `argon2::password_hash::Error`, carried opaquely.
#[verifier::external_type_specification]
#[verifier::external_body]
pub struct ExPasswordHashError(PasswordHashError);

/// The PHC text that Argon2 with its default settings makes of `password` and the salt
/// written from `salt`, or `None` where the crate refuses them.
pub uninterp spec fn argon2_phc_hash(password: Seq<u8>, salt: Seq<u8>) -> Option<Seq<char>>;

/// `PasswordHash::new` accepts `phc` as a PHC string.
pub uninterp spec fn phc_parses(phc: Seq<char>) -> bool;

/// Argon2 with its default settings accepts `password` against the PHC string `phc`.
pub uninterp spec fn argon2_verifies(password: Seq<u8>, phc: Seq<char>) -> bool;

/// `SaltString::encode_b64(salt)`, then `Argon2::default().hash_password(password, &salt)`,
/// written as a PHC string. A hash made this way parses, and the same password verifies
/// against it (`verify_password` recomputes it with the parameters it records).
#[verifier::external_body]
fn argon2_hash(password: &[u8], salt: &[u8; 32]) -> (phc: Result<String, PasswordHashError>)
    ensures
        argon2_phc_hash(password@, salt@) == match phc {
            Ok(text) => Some(text@),
            Err(_) => None::<Seq<char>>,
        },
        phc matches Ok(text) ==> phc_parses(text@) && argon2_verifies(password@, text@),
{
    let salt = SaltString::encode_b64(salt)?;
    Ok(Argon2::default().hash_password(password, &salt)?.to_string())
}

/// `PasswordHash::new(phc)`, then `Argon2::default().verify_password(password, &hash)`: the
/// outer error when `phc` does not parse, the inner one when the password does not match.
#[verifier::external_body]
fn argon2_verify(password: &[u8], phc: &str) -> (outcome: Result<Result<(), PasswordHashError>, PasswordHashError>)
    ensures
        outcome is Ok <==> phc_parses(phc@),
        outcome matches Ok(checked) ==> (checked is Ok <==> argon2_verifies(password@, phc@)),
{
    let hash = PasswordHash::new(phc)?;
    Ok(Argon2::default().verify_password(password, &hash))
}

/// The `Display` text of a password hashing error.
#[verifier::external_body]
fn password_error_text(error: &PasswordHashError) -> String {
    format!("{}", error)
}

/// What a request of the user API can fail with, besides the database.
#[derive(Debug)]
pub enum ApiError {
    AuthenticationRequired,
    UserNotFound,
    InvalidPassword,
    BlobNotFound,
    PermissionDenied,
    /// A password record could not be made or read; the text is the hashing error's.
    PasswordHash(String),
    Crypto(CryptoError),
}

impl ApiError {
    /// The message this error reads as.
    pub fn message(&self) -> (text: String)
        ensures
            self is AuthenticationRequired ==> text@ == "Authentication required"@,
            self is UserNotFound ==> text@ == "User not found"@,
            self is InvalidPassword ==> text@ == "Invalid password"@,
            self is BlobNotFound ==> text@ == "Blob not found"@,
            self is PermissionDenied ==> text@ == "You don't have permission to delete this blob"@,
            self matches ApiError::PasswordHash(t) ==> text@ == t@,
            self matches ApiError::Crypto(e) ==> crypto_error_reads_as(*e, text@),
    {
        match self {
            ApiError::AuthenticationRequired => String::from_str("Authentication required"),
            ApiError::UserNotFound => String::from_str("User not found"),
            ApiError::InvalidPassword => String::from_str("Invalid password"),
            ApiError::BlobNotFound => String::from_str("Blob not found"),
            ApiError::PermissionDenied => String::from_str(
                "You don't have permission to delete this blob",
            ),
            ApiError::PasswordHash(t) => t.clone(),
            ApiError::Crypto(e) => e.message(),
        }
    }
}

/// The record kept of a new user's password: its Argon2 hash with a fresh random salt. The
/// password verifies against the record. Only a failed draw of the salt, or Argon2
/// refusing the password with the salt drawn, makes it fail.
pub fn password_record(password: &str) -> (record: Result<String, ApiError>)
    ensures
        record matches Ok(phc) ==> phc_parses(phc@) && argon2_verifies(encode_utf8(password@), phc@),
        record matches Ok(phc) ==> exists|salt: Seq<u8>|
            salt.len() == 32 && #[trigger] argon2_phc_hash(encode_utf8(password@), salt) == Some(phc@),
        record matches Err(e) ==> (e matches ApiError::Crypto(c) && c is RandomGenerationError)
            || e is PasswordHash,
        record matches Err(e) && e is PasswordHash ==> exists|salt: Seq<u8>|
            salt.len() == 32 && #[trigger] argon2_phc_hash(encode_utf8(password@), salt) is None,
{
    let draw = get_secure_random_bytes();
    let record = password_record_with_salt(password, draw);
    proof {
        if draw is Ok {
            let salt = draw->Ok_0@;
            assert(salt.len() == 32);
            assert(argon2_phc_hash(encode_utf8(password@), salt) == match record {
                Ok(phc) => Some(phc@),
                Err(_) => None::<Seq<char>>,
            });
        }
    }
    record
}

/// The record of a password with what the draw of a 32-byte salt gave: a failed draw's
/// error, or else the PHC text that Argon2 makes of the password and the drawn salt, or
/// its error where Argon2 refuses them.
pub fn password_record_with_salt(password: &str, draw: Result<[u8; 32], CryptoError>) -> (record: Result<
    String,
    ApiError,
>)
    ensures
        draw matches Err(e) ==> (record matches Err(ApiError::Crypto(c)) && c == e),
        draw matches Ok(salt) ==> argon2_phc_hash(encode_utf8(password@), salt@) == match record {
            Ok(phc) => Some(phc@),
            Err(_) => None::<Seq<char>>,
        },
        draw matches Ok(salt) ==> (record matches Err(e) ==> e is PasswordHash),
        record matches Ok(phc) ==> phc_parses(phc@) && argon2_verifies(encode_utf8(password@), phc@),
{
    let salt = match draw {
        Ok(bytes) => bytes,
        Err(e) => return Err(ApiError::Crypto(e)),
    };
    match argon2_hash(password.as_bytes(), &salt) {
        Ok(phc) => Ok(phc),
        Err(e) => Err(ApiError::PasswordHash(password_error_text(&e))),
    }
}

/// Checks a login: the user must exist (`stored` is the password record found under the
/// user name, if any), the record must parse, and the password must match it.
pub fn check_login(stored: Option<&String>, password: &str) -> (outcome: Result<(), ApiError>)
    ensures
        outcome is Ok <==> login_accepted(
            match stored {
                Some(phc) => Some(phc@),
                None => None,
            },
            encode_utf8(password@),
        ),
        stored is None ==> (outcome matches Err(e) && e is UserNotFound),
        stored matches Some(phc) ==> {
            &&& !phc_parses(phc@) ==> (outcome matches Err(e) && e is PasswordHash)
            &&& phc_parses(phc@) && !argon2_verifies(encode_utf8(password@), phc@) ==> (
            outcome matches Err(e) && e is InvalidPassword)
            &&& phc_parses(phc@) && argon2_verifies(encode_utf8(password@), phc@) ==> outcome is Ok
        },
{
    let phc = match stored {
        Some(phc) => phc,
        None => return Err(ApiError::UserNotFound),
    };
    match argon2_verify(password.as_bytes(), phc.as_str()) {
        Err(e) => Err(ApiError::PasswordHash(password_error_text(&e))),
        Ok(Err(_)) => Err(ApiError::InvalidPassword),
        Ok(Ok(())) => Ok(()),
    }
}

/// How long a session lasts: seven days, in seconds.
pub const SESSION_SECONDS: i64 = 604800;

/// The claims of a session token: the user, when the token expires, and when it was
/// issued (seconds since the Unix epoch).
#[derive(Debug, Clone, Copy, PartialEq, Eq, Structural)]
pub struct Claims {
    pub sub: u128,
    pub exp: i64,
    pub iat: i64,
}

/// The claims of a session opened at `now` for the user `user_id`: issued now, expiring
/// seven days later.
pub fn session_claims(user_id: u128, now: i64) -> (claims: Claims)
    requires
        now + SESSION_SECONDS <= i64::MAX,
    ensures
        claims.sub == user_id,
        claims.exp == now + SESSION_SECONDS,
        claims.iat == now,
{
    Claims { sub: user_id, exp: now + SESSION_SECONDS, iat: now }
}

/// The token of an `Authorization` header of the form `Bearer <token>`.
pub fn bearer_token(header: &str) -> (token: Option<String>)
    ensures
        token is Some <==> header@.len() >= 7 && header@.take(7) == "Bearer "@,
        token matches Some(t) ==> t@ == header@.skip(7),
{
    let prefix = "Bearer ";
    proof {
        reveal_strlit("Bearer ");
    }
    let len = header.unicode_len();
    if len < 7 {
        return None;
    }
    let mut i: usize = 0;
    while i < 7
        invariant
            i <= 7,
            len == header@.len(),
            len >= 7,
            prefix@ == "Bearer "@,
            prefix@.len() == 7,
            header@.take(i as int) == prefix@.take(i as int),
        decreases 7 - i,
    {
        if header.get_char(i) != prefix.get_char(i) {
            assert(header@.take(7)[i as int] != "Bearer "@[i as int]);
            return None;
        }
        assert(header@.take(i + 1) =~= header@.take(i as int).push(header@[i as int]));
        assert(prefix@.take(i + 1) =~= prefix@.take(i as int).push(prefix@[i as int]));
        i = i + 1;
    }
    assert(prefix@.take(7) =~= prefix@);
    let rest = header.substring_char(7, len);
    assert(rest@ =~= header@.skip(7));
    Some(String::from_str(rest))
}

/// Whether the current user may delete a blob: someone must be logged in, the blob must
/// exist, and it must be theirs. `owner` is the owner of the blob, if it was found.
pub fn authorize_delete(current_user: Option<u128>, owner: Option<u128>) -> (outcome: Result<(), ApiError>)
    ensures
        current_user is None ==> (outcome matches Err(e) && e is AuthenticationRequired),
        current_user is Some && owner is None ==> (outcome matches Err(e) && e is BlobNotFound),
        current_user is Some && owner is Some ==> (if owner.unwrap() == current_user.unwrap() {
            outcome is Ok
        } else {
            outcome matches Err(e) && e is PermissionDenied
        }),
{
    let user = match current_user {
        Some(u) => u,
        None => return Err(ApiError::AuthenticationRequired),
    };
    match owner {
        None => Err(ApiError::BlobNotFound),
        Some(o) => {
            if o != user {
                Err(ApiError::PermissionDenied)
            } else {
                Ok(())
            }
        },
    }
}

/// A login with `password` against the stored record, if any, succeeds.
pub open spec fn login_accepted(stored: Option<Seq<char>>, password: Seq<u8>) -> bool {
    stored matches Some(phc) && phc_parses(phc) && argon2_verifies(password, phc)
}

/// The record made of a password at registration lets that password log in.
pub proof fn lemma_recorded_password_logs_in(password: Seq<char>, record: Seq<char>)
    requires
        phc_parses(record),
        argon2_verifies(encode_utf8(password), record),
    ensures
        login_accepted(Some(record), encode_utf8(password)),
{
}

} // verus!
