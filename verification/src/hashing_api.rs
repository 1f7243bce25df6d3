//! Password hashing with Argon2 (default parameters, fresh random salt) and
//! checking a password against a stored PHC string.
use vstd::prelude::*;
use crate::text::starts_with_spec;
use argon2::{Argon2, PasswordHash, PasswordHasher, PasswordVerifier};
use argon2::password_hash::SaltString;
use argon2::password_hash::rand_core::OsRng;

verus! {

#[verifier::external_type_specification]
#[verifier::external_body]
pub struct ExPasswordHash<'a>(PasswordHash<'a>);

/// What `Argon2::default().hash_password(password, salt)` gives: the PHC
/// string of the hash, or the text of the error.
pub uninterp spec fn argon2_phc_string(password: Seq<char>, salt: Seq<char>) -> Result<Seq<char>, Seq<char>>;

/// What `PasswordHash::new(phc)` gives: success, or the text of the error.
pub uninterp spec fn phc_parse_outcome(phc: Seq<char>) -> Result<(), Seq<char>>;

/// What `Argon2::default().verify_password(password, parsed)` gives for the
/// PHC string `phc` (parsed successfully): success, or the text of the error.
pub uninterp spec fn argon2_verify_outcome(password: Seq<char>, phc: Seq<char>) -> Result<(), Seq<char>>;

/// A character of the standard Base64 alphabet.
pub open spec fn is_b64_char(c: char) -> bool {
    ('A' <= c && c <= 'Z') || ('a' <= c && c <= 'z') || ('0' <= c && c <= '9') || c == '+' || c
        == '/'
}

/// The unpadded standard Base64 text of 16 bytes, the form of a generated salt:
/// 22 characters, the last of which carries only two bits.
pub open spec fn is_generated_salt(s: Seq<char>) -> bool {
    &&& s.len() == 22
    &&& forall|i: int| 0 <= i < s.len() ==> is_b64_char(#[trigger] s[i])
    &&& (s[21] == 'A' || s[21] == 'Q' || s[21] == 'g' || s[21] == 'w')
}

/// The number of bytes of the UTF-8 encoding of `s`.
pub open spec fn utf8_len(s: Seq<char>) -> nat {
    vstd::utf8::encode_utf8(s).len()
}

/// Argon2's limit on the length of a password, in bytes.
pub open spec fn max_password_bytes() -> nat {
    0xFFFF_FFFF
}

/// A result of texts, by the texts' characters.
pub open spec fn text_result(r: Result<String, String>) -> Result<Seq<char>, Seq<char>> {
    match r {
        Ok(s) => Ok(s@),
        Err(e) => Err(e@),
    }
}

/// The beginning of a PHC string made with Argon2's default parameters:
/// Argon2id, version 19 (0x13), 4096 KiB of memory, 3 passes, 1 lane.
pub open spec fn default_phc_prefix() -> Seq<char> {
    "$argon2id$v=19$m=4096,t=3,p=1$"@
}

/// A PHC string of Argon2 with default parameters: the prefix, the salt,
/// then the hash after a `$`.
pub open spec fn default_phc_string(salt: Seq<char>, hash: Seq<char>) -> Seq<char> {
    default_phc_prefix() + salt + "$"@ + hash
}

/// Calls `SaltString::generate(&mut OsRng)`: a salt of 16 random bytes from
/// the operating system, in Base64. The contract claims only the form of the
/// text; its content is chance.
#[verifier::external_body]
fn fresh_salt() -> (s: String)
    ensures
        is_generated_salt(s@),
{
    SaltString::generate(&mut OsRng).as_str().to_string()
}

/// Calls `Argon2::default().hash_password(password.as_bytes(), salt)` and
/// renders the hash as a PHC string (or the error as text). The contract
/// names the result, states the layout of the PHC string (default
/// parameters, the salt as given, 32 bytes of hash in 43 Base64 characters),
/// and claims two facts of the crate: what it produces
/// parses back and verifies against the same password (the round trip of its
/// documented example), and it succeeds for a generated salt and a password
/// of at most `0xFFFF_FFFF` bytes (its only other checks are on the salt).
#[verifier::external_body]
fn hash_with_salt(password: &str, salt: &str) -> (r: Result<String, String>)
    ensures
        text_result(r) == argon2_phc_string(password@, salt@),
        r matches Ok(h) ==> phc_parse_outcome(h@) is Ok && argon2_verify_outcome(password@, h@) is Ok,
        r matches Ok(h) ==> exists|hash: Seq<char>|
            hash.len() == 43 && h@ == #[trigger] default_phc_string(salt@, hash),
        is_generated_salt(salt@) && utf8_len(password@) <= max_password_bytes() ==> r is Ok,
{
    match Argon2::default().hash_password(password.as_bytes(), salt) {
        Ok(h) => Ok(h.to_string()),
        Err(e) => Err(e.to_string()),
    }
}

/// A PHC string together with its parsed form.
pub struct ParsedPasswordHash<'a> {
    text: &'a str,
    inner: PasswordHash<'a>,
}

impl<'a> ParsedPasswordHash<'a> {
    /// The PHC string that was parsed.
    pub closed spec fn text(&self) -> Seq<char> {
        self.text@
    }
}

/// Calls `PasswordHash::new(hash)`; the contract names its outcome and keeps
/// the text that was parsed beside the parsed value.
#[verifier::external_body]
fn parse_password_hash<'a>(hash: &'a str) -> (r: Result<ParsedPasswordHash<'a>, String>)
    ensures
        match r {
            Ok(p) => phc_parse_outcome(hash@) is Ok && p.text() == hash@,
            Err(e) => phc_parse_outcome(hash@) == Err::<(), Seq<char>>(e@),
        },
{
    match PasswordHash::new(hash) {
        Ok(inner) => Ok(ParsedPasswordHash { text: hash, inner }),
        Err(e) => Err(e.to_string()),
    }
}

/// Calls `Argon2::default().verify_password(password.as_bytes(), parsed)`;
/// the contract names its outcome over the password and the PHC string.
#[verifier::external_body]
fn argon2_verify(password: &str, parsed: &ParsedPasswordHash) -> (r: Result<(), String>)
    ensures
        match r {
            Ok(_) => argon2_verify_outcome(password@, parsed.text()) is Ok,
            Err(e) => argon2_verify_outcome(password@, parsed.text()) == Err::<(), Seq<char>>(e@),
        },
{
    match Argon2::default().verify_password(password.as_bytes(), &parsed.inner) {
        Ok(()) => Ok(()),
        Err(e) => Err(e.to_string()),
    }
}

/// Why a password was not accepted.
pub enum VerifyPasswordErr {
    /// The password does not match the hash.
    InvalidPassword(String),
    /// The stored hash is not a PHC string.
    InternalError(String),
}

/// The model of a [`VerifyPasswordErr`].
pub enum PasswordFault {
    InvalidPassword(Seq<char>),
    InternalError(Seq<char>),
}

impl View for VerifyPasswordErr {
    type V = PasswordFault;

    open spec fn view(&self) -> PasswordFault {
        match self {
            VerifyPasswordErr::InvalidPassword(s) => PasswordFault::InvalidPassword(s@),
            VerifyPasswordErr::InternalError(s) => PasswordFault::InternalError(s@),
        }
    }
}

/// The outcome of checking `password` against the stored PHC string `hash`.
pub open spec fn verify_password_spec(password: Seq<char>, hash: Seq<char>) -> Result<(), PasswordFault> {
    match phc_parse_outcome(hash) {
        Err(e) => Err(PasswordFault::InternalError(e)),
        Ok(_) => match argon2_verify_outcome(password, hash) {
            Ok(_) => Ok(()),
            Err(e) => Err(PasswordFault::InvalidPassword(e)),
        },
    }
}

/// The model of a password check's result.
pub open spec fn verify_result_view(r: Result<(), VerifyPasswordErr>) -> Result<(), PasswordFault> {
    match r {
        Ok(_) => Ok(()),
        Err(e) => Err(e@),
    }
}

/// The text that hashing `password` with `salt` stores: the PHC string, or,
/// when Argon2 fails, the text of its error.
pub open spec fn stored_hash_text(password: Seq<char>, salt: Seq<char>) -> Seq<char> {
    match argon2_phc_string(password, salt) {
        Ok(h) => h,
        Err(e) => e,
    }
}

/// Hashes `password` with Argon2 and a fresh random salt, giving the PHC
/// string to store. Always `Ok`: should Argon2 fail, the text of its error
/// is what is returned. The stored text verifies against the same password
/// whenever the password is at most `0xFFFF_FFFF` bytes long.
pub fn hashing_password(password: &str) -> (r: Result<String, String>)
    ensures
        r matches Ok(h) && exists|salt: Seq<char>|
            is_generated_salt(salt) && h@ == #[trigger] stored_hash_text(password@, salt),
        utf8_len(password@) <= max_password_bytes() ==> (r matches Ok(h) && starts_with_spec(h@, default_phc_prefix())
            && h@.len() == 96),
        utf8_len(password@) <= max_password_bytes() ==> (r matches Ok(h) && verify_password_spec(
            password@,
            h@,
        ) == Ok::<(), PasswordFault>(())),
{
    let salt = fresh_salt();
    let hashed = hash_with_salt(password, salt.as_str());
    let stored = match hashed {
        Ok(v) => v,
        Err(v) => v,
    };
    assert(stored@ == stored_hash_text(password@, salt@));
    proof {
        if hashed is Ok {
            reveal_strlit("$argon2id$v=19$m=4096,t=3,p=1$");
            reveal_strlit("$");
            let hash = choose|hash: Seq<char>| hash.len() == 43 && stored@ == #[trigger] default_phc_string(salt@, hash);
            assert(stored@.subrange(0, default_phc_prefix().len() as int) =~= default_phc_prefix());
        }
    }
    Ok(stored)
}

/// Checks `password` against the stored PHC string `password_hash`.
pub fn verify_password(password: &str, password_hash: &str) -> (r: Result<(), VerifyPasswordErr>)
    ensures
        verify_result_view(r) == verify_password_spec(password@, password_hash@),
{
    let parsed_hash = match parse_password_hash(password_hash) {
        Ok(v) => v,
        Err(v) => {
            return Err(VerifyPasswordErr::InternalError(v));
        },
    };
    match argon2_verify(password, &parsed_hash) {
        Ok(_) => Ok(()),
        Err(v) => Err(VerifyPasswordErr::InvalidPassword(v)),
    }
}

} // verus!
