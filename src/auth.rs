use crate::text::strip_prefix;
use vstd::prelude::*;

verus! {

/// What a dealer's bearer credential carries: who the dealer is and until when
/// (seconds since the Unix epoch) the credential holds.
#[derive(Clone, Debug)]
pub struct Claims {
    pub dealer_id: i32,
    pub email: String,
    pub exp: usize,
}

/// How long a credential holds, in seconds: thirty days.
pub const TOKEN_LIFETIME_SECS: u64 = 2_592_000;

impl Claims {
    /// The claims of a credential issued at `now_secs` (seconds since the Unix
    /// epoch) to a dealer.
    pub fn issue(dealer_id: i32, email: String, now_secs: u64) -> (r: Claims)
        requires
            now_secs + TOKEN_LIFETIME_SECS <= usize::MAX,
        ensures
            r.dealer_id == dealer_id,
            r.email == email,
            r.exp == now_secs + TOKEN_LIFETIME_SECS,
    {
        let exp = now_secs + TOKEN_LIFETIME_SECS;
        Claims { dealer_id, email, exp: exp as usize }
    }
}

/// bcrypt's `BcryptError`, carried without looking inside.
#[verifier::external_type_specification]
#[verifier::external_body]
pub struct ExBcryptError(bcrypt::BcryptError);

/// Why a password operation failed.
#[derive(Clone, Copy, Debug, PartialEq, Eq, Structural)]
pub enum PasswordError {
    /// No hash could be made of the password.
    HashFailed,
    /// The stored hash is not a well-formed bcrypt hash.
    VerifyFailed,
}

/// The work factor of new password hashes.
pub const HASH_COST: u32 = 12;

/// Whether `password` matches the bcrypt hash `hash`; none when `hash` is not
/// a well-formed bcrypt hash.
pub uninterp spec fn bcrypt_verdict(password: Seq<char>, hash: Seq<char>) -> Option<bool>;

/// Relies on `bcrypt::hash`: a hash of the password under a random salt,
/// which `bcrypt::verify` accepts for that password. It fails only when no
/// random salt can be had.
#[verifier::external_body]
fn bcrypt_hash(password: &str, cost: u32) -> (r: Result<String, bcrypt::BcryptError>)
    requires
        4 <= cost <= 31,
    ensures
        r matches Ok(h) ==> bcrypt_verdict(password@, h@) == Some(true),
{
    bcrypt::hash(password, cost)
}

/// Relies on `bcrypt::verify`: whether the password hashes, under the salt
/// and cost that `hash` names, to the digest that `hash` holds.
#[verifier::external_body]
fn bcrypt_verify(password: &str, hash: &str) -> (r: Result<bool, bcrypt::BcryptError>)
    ensures
        match r {
            Ok(b) => bcrypt_verdict(password@, hash@) == Some(b),
            Err(_) => bcrypt_verdict(password@, hash@) is None,
        },
{
    bcrypt::verify(password, hash)
}

/// A salted hash of `password` for storing.
pub fn hash_password(password: &str) -> (r: Result<String, PasswordError>)
    ensures
        r is Err ==> r == Err::<String, PasswordError>(PasswordError::HashFailed),
        r matches Ok(h) ==> bcrypt_verdict(password@, h@) == Some(true),
{
    match bcrypt_hash(password, HASH_COST) {
        Ok(h) => Ok(h),
        Err(_) => Err(PasswordError::HashFailed),
    }
}

/// Whether `password` is the one that `hash` was made from.
pub fn verify_password(password: &str, hash: &str) -> (r: Result<bool, PasswordError>)
    ensures
        match bcrypt_verdict(password@, hash@) {
            Some(b) => r == Ok::<bool, PasswordError>(b),
            None => r == Err::<bool, PasswordError>(PasswordError::VerifyFailed),
        },
{
    match bcrypt_verify(password, hash) {
        Ok(b) => Ok(b),
        Err(_) => Err(PasswordError::VerifyFailed),
    }
}

/// The credential of an `Authorization` header value of the form
/// `Bearer <credential>`.
pub fn bearer_token(header: &str) -> (r: Option<String>)
    ensures
        r is Some <==> "Bearer "@.is_prefix_of(header@),
        r matches Some(t) ==> t@ == header@.skip("Bearer "@.len() as int),
{
    strip_prefix(header, "Bearer ")
}

} // verus!
