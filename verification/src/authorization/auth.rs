use vstd::prelude::*;
use crate::utils::Error;
use crate::entities::user::CreateUser;
use argon2::PasswordHasher;

verus! {

/// What the message of a failed password hash says: that no password could be made.
pub const PASSWORD_HASH_FAILED: &'static str = "невозможно сгенерировать пароль";

/// A character of standard Base64: `A`-`Z`, `a`-`z`, `0`-`9`, `+` or `/`.
pub open spec fn is_b64_char(c: char) -> bool {
    ('A' <= c && c <= 'Z') || ('a' <= c && c <= 'z') || ('0' <= c && c <= '9') || c == '+' || c == '/'
}

/// A salt as `SaltString::generate` makes it: 16 random bytes in canonical
/// unpadded standard Base64, which is 22 characters whose last one carries
/// the last 2 bits followed by 4 zero bits (so it is `A`, `Q`, `g` or `w`).
pub open spec fn is_generated_salt(s: Seq<char>) -> bool {
    &&& s.len() == 22
    &&& forall|i: int| 0 <= i < s.len() ==> is_b64_char(#[trigger] s[i])
    &&& (s[21] == 'A' || s[21] == 'Q' || s[21] == 'g' || s[21] == 'w')
}

/// The longest password, in characters, whose UTF-8 encoding surely fits
/// Argon2's limit of `0xFFFFFFFF` bytes (a character takes at most 4 bytes).
pub open spec fn password_fits(password: Seq<char>) -> bool {
    password.len() <= 0x3FFF_FFFF
}

/// The PHC string that `Argon2::default()` makes of `password` (its UTF-8
/// bytes) with the Base64 salt `salt`, or `None` where it refuses them.
pub uninterp spec fn argon2_default_hash(password: Seq<char>, salt: Seq<char>) -> Option<Seq<char>>;

/// Draws a fresh salt with `SaltString::generate(&mut OsRng)` from
/// `password_hash` and returns its text. The contract claims only the form
/// that the source gives it (16 bytes in unpadded standard Base64); the
/// bytes are random, so nothing ties two calls together.
#[verifier::external_body]
fn generate_salt() -> (s: String)
    ensures
        is_generated_salt(s@),
{
    let salt = argon2::password_hash::SaltString::generate(&mut argon2::password_hash::rand_core::OsRng);
    salt.as_str().to_string()
}

/// Hashes `password` with `Argon2::default()` through `PasswordHasher::hash_password`,
/// after reading `salt` with `SaltString::from_b64`, and returns the PHC string
/// (`PasswordHash`'s `Display`), or `None` where either call fails. The contract
/// claims that the result is `argon2_default_hash` of the two texts, and that
/// a salt of the generated form with a password whose UTF-8 bytes fit Argon2's
/// limit is not refused: `from_b64` accepts 4 to 64 characters of
/// `[a-zA-Z0-9/+.-]`, the 22 canonical characters decode to 16 bytes (at
/// least the 8 that Argon2 asks for), and Argon2's remaining checks are on
/// the password's length and on its own default parameters. Which other
/// salts and passwords are refused is left unsaid.
#[verifier::external_body]
fn argon2_hash(password: &str, salt: &str) -> (h: Option<String>)
    ensures
        h matches Some(x) ==> argon2_default_hash(password@, salt@) == Some(x@),
        h is None <==> argon2_default_hash(password@, salt@) is None,
        is_generated_salt(salt@) && password_fits(password@) ==> h is Some,
{
    let salt = argon2::password_hash::SaltString::from_b64(salt).ok()?;
    match argon2::Argon2::default().hash_password(password.as_bytes(), &salt) {
        Ok(hash) => Some(hash.to_string()),
        Err(_) => None,
    }
}

/// The user to store, from a registration and the hash that was made of its
/// password: the password replaced by the hash; without a hash,
/// `Error::InvalidData` with `PASSWORD_HASH_FAILED`.
pub fn with_password_hash(payload: CreateUser, hash: Option<String>) -> (r: Result<CreateUser, Error>)
    ensures
        match hash {
            Some(h) => r matches Ok(u) && u.name == payload.name && u.login == payload.login
                && u.password == h,
            None => r matches Err(Error::InvalidData(m)) && m@ == PASSWORD_HASH_FAILED@,
        },
{
    match hash {
        Some(h) => Ok(CreateUser { name: payload.name, login: payload.login, password: h }),
        None => Err(Error::InvalidData(String::from_str(PASSWORD_HASH_FAILED))),
    }
}

/// The user to store, from a registration and a salt: the password replaced by
/// its Argon2 hash with that salt; where Argon2 refuses them,
/// `Error::InvalidData` with `PASSWORD_HASH_FAILED`.
pub fn hash_user_password(payload: CreateUser, salt: &str) -> (r: Result<CreateUser, Error>)
    ensures
        match argon2_default_hash(payload.password@, salt@) {
            Some(h) => r matches Ok(u) && u.name == payload.name && u.login == payload.login
                && u.password@ == h,
            None => r matches Err(Error::InvalidData(m)) && m@ == PASSWORD_HASH_FAILED@,
        },
        is_generated_salt(salt@) && password_fits(payload.password@) ==> r is Ok,
{
    let hash = argon2_hash(payload.password.as_str(), salt);
    with_password_hash(payload, hash)
}

/// The user that a registration stores: the password replaced by its Argon2
/// hash with a freshly drawn salt. It succeeds for every password that fits
/// Argon2's length limit; where Argon2 refuses, `Error::InvalidData` with
/// `PASSWORD_HASH_FAILED`.
pub fn create_user(payload: CreateUser) -> (r: Result<CreateUser, Error>)
    ensures
        r matches Ok(u) ==> u.name == payload.name && u.login == payload.login
            && exists|salt: Seq<char>| is_generated_salt(salt)
                && argon2_default_hash(payload.password@, salt) == Some(u.password@),
        r matches Err(e) ==> (e matches Error::InvalidData(m) && m@ == PASSWORD_HASH_FAILED@
            && exists|salt: Seq<char>| is_generated_salt(salt)
                && argon2_default_hash(payload.password@, salt) is None),
        password_fits(payload.password@) ==> r is Ok,
{
    let salt = generate_salt();
    hash_user_password(payload, salt.as_str())
}

} // verus!
