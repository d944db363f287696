//! Password hashing with Argon2 and checking a password against a stored hash.

use vstd::prelude::*;
use vstd::string::*;

verus! {

/// The error type of the Argon2 crate.
#[verifier::external_type_specification]
#[verifier::external_body]
pub struct ExArgon2Error(argon2::Error);

/// The 32-byte Argon2 hash that `argon2::hash_encoded` computes for a password
/// and a salt under the crate's default configuration, before it is encoded.
pub uninterp spec fn argon2_default_hash(password: Seq<u8>, salt: Seq<u8>) -> Seq<u8>;

/// What `argon2::verify_encoded` answers for an encoded hash and a password:
/// `Some(matches)` when it can decode and recompute the hash, `None` when it
/// reports an error.
pub uninterp spec fn argon2_verify_encoded(encoded: Seq<char>, password: Seq<u8>) -> Option<bool>;

/// The digit for a 6-bit value in the standard base64 alphabet
/// (`A`-`Z`, `a`-`z`, `0`-`9`, `+`, `/`).
pub open spec fn base64_digit(v: int) -> char {
    if v < 26 {
        (65 + v) as char
    } else if v < 52 {
        (97 + v - 26) as char
    } else if v < 62 {
        (48 + v - 52) as char
    } else if v == 62 {
        '+'
    } else {
        '/'
    }
}

/// Standard base64 of `bytes` without `=` padding: each group of three bytes
/// becomes four digits, a final group of one or two bytes two or three digits.
pub open spec fn base64_unpadded(bytes: Seq<u8>) -> Seq<char>
    decreases bytes.len(),
{
    if bytes.len() == 0 {
        seq![]
    } else if bytes.len() == 1 {
        seq![base64_digit(bytes[0] as int / 4), base64_digit((bytes[0] as int % 4) * 16)]
    } else if bytes.len() == 2 {
        seq![
            base64_digit(bytes[0] as int / 4),
            base64_digit((bytes[0] as int % 4) * 16 + bytes[1] as int / 16),
            base64_digit((bytes[1] as int % 16) * 4),
        ]
    } else {
        seq![
            base64_digit(bytes[0] as int / 4),
            base64_digit((bytes[0] as int % 4) * 16 + bytes[1] as int / 16),
            base64_digit((bytes[1] as int % 16) * 4 + bytes[2] as int / 64),
            base64_digit(bytes[2] as int % 64),
        ] + base64_unpadded(bytes.subrange(3, bytes.len() as int))
    }
}

/// The encoded form (PHC string) of a hash made under the default Argon2
/// configuration: the variant, version and cost parameters, then the salt and
/// the hash in unpadded base64, each field introduced by `$`.
pub open spec fn argon2_default_encoding(salt: Seq<u8>, hash: Seq<u8>) -> Seq<char> {
    "$argon2id$v=19$m=19456,t=2,p=1$"@ + base64_unpadded(salt) + "$"@ + base64_unpadded(hash)
}

/// Hashes with `argon2::hash_encoded` under `argon2::Config::default()` (Argon2id,
/// version 0x13, 19456 KiB of memory, 2 passes, 1 lane, a 32-byte hash, no
/// secret and no associated data). Under that configuration the crate only
/// refuses a password longer than 2^32 - 1 bytes, or a salt shorter than 8 or
/// longer than 2^32 - 1 bytes. It writes the result as
/// `$argon2id$v=19$m=19456,t=2,p=1$<salt>$<hash>` with salt and hash in
/// unpadded standard base64; the hash bytes themselves are only named. The
/// encoded text records the configuration and the salt, so
/// `argon2::verify_encoded` recomputes the same hash from it and the same
/// password and answers `true`.
#[verifier::external_body]
fn hash_encoded_default(password: &[u8], salt: &[u8]) -> (r: Result<String, argon2::Error>)
    ensures
        r is Ok <==> (password@.len() <= u32::MAX && 8 <= salt@.len() <= u32::MAX),
        r is Ok ==> argon2_default_hash(password@, salt@).len() == 32,
        r matches Ok(encoded) ==> encoded@ == argon2_default_encoding(
            salt@,
            argon2_default_hash(password@, salt@),
        ),
        r matches Ok(encoded) ==> argon2_verify_encoded(encoded@, password@) == Some(true),
{
    argon2::hash_encoded(password, salt, &argon2::Config::default())
}

/// Checks a password against an encoded hash with `argon2::verify_encoded`;
/// the answer, or whether the crate reports an error, is the one named by
/// `argon2_verify_encoded`. Which error it reports is not stated.
#[verifier::external_body]
fn verify_encoded(encoded: &str, password: &[u8]) -> (r: Result<bool, argon2::Error>)
    ensures
        r is Ok <==> argon2_verify_encoded(encoded@, password@) is Some,
        r matches Ok(b) ==> argon2_verify_encoded(encoded@, password@) == Some(b),
{
    argon2::verify_encoded(encoded, password)
}

/// Argon2 could not check a password against a stored hash (for instance the
/// hash is not a well-formed encoded Argon2 hash); the crate's error is kept
/// so that it can be reported.
#[derive(Debug)]
pub struct PasswordCheckError(pub argon2::Error);

/// The fixed salt that every password is hashed with: the bytes of `randomsaltlol`.
pub open spec fn password_salt_bytes() -> Seq<u8> {
    seq![114u8, 97u8, 110u8, 100u8, 111u8, 109u8, 115u8, 97u8, 108u8, 116u8, 108u8, 111u8, 108u8]
}

fn password_salt() -> (salt: Vec<u8>)
    ensures
        salt@ == password_salt_bytes(),
{
    let salt: Vec<u8> = vec![114u8, 97u8, 110u8, 100u8, 111u8, 109u8, 115u8, 97u8, 108u8, 116u8, 108u8, 111u8, 108u8];
    assert(salt@ =~= password_salt_bytes());
    salt
}

/// The hash stored for a password: Argon2 under the default configuration and
/// the fixed salt, over the password's UTF-8 bytes.
pub open spec fn spec_password_digest(password: Seq<char>) -> Seq<u8> {
    argon2_default_hash(vstd::utf8::encode_utf8(password), password_salt_bytes())
}

/// The stored form of a password: the encoded Argon2 hash, whose salt field
/// is `cmFuZG9tc2FsdGxvbA`, the unpadded base64 of the fixed salt.
pub open spec fn spec_hash_password(password: Seq<char>) -> Seq<char> {
    "$argon2id$v=19$m=19456,t=2,p=1$cmFuZG9tc2FsdGxvbA$"@ + base64_unpadded(
        spec_password_digest(password),
    )
}

/// A password matches a stored hash when Argon2 can check it and finds it equal.
pub open spec fn password_matches(hash: Seq<char>, password: Seq<char>) -> bool {
    argon2_verify_encoded(hash, vstd::utf8::encode_utf8(password)) == Some(true)
}

/// The encoding of a hash made with the fixed salt starts with the fixed text
/// `$argon2id$v=19$m=19456,t=2,p=1$cmFuZG9tc2FsdGxvbA$`.
pub proof fn lemma_fixed_salt_encoding(hash: Seq<u8>)
    ensures
        argon2_default_encoding(password_salt_bytes(), hash)
            == "$argon2id$v=19$m=19456,t=2,p=1$cmFuZG9tc2FsdGxvbA$"@ + base64_unpadded(hash),
{
    reveal_with_fuel(base64_unpadded, 6);
    let salt = password_salt_bytes();
    let field = base64_unpadded(salt);
    assert(salt.subrange(3, 13) =~= seq![100u8, 111u8, 109u8, 115u8, 97u8, 108u8, 116u8, 108u8, 111u8, 108u8]);
    assert(salt.subrange(3, 13).subrange(3, 10) =~= seq![115u8, 97u8, 108u8, 116u8, 108u8, 111u8, 108u8]);
    assert(salt.subrange(3, 13).subrange(3, 10).subrange(3, 7) =~= seq![116u8, 108u8, 111u8, 108u8]);
    assert(salt.subrange(3, 13).subrange(3, 10).subrange(3, 7).subrange(3, 4) =~= seq![108u8]);
    reveal_strlit("$argon2id$v=19$m=19456,t=2,p=1$");
    reveal_strlit("$");
    reveal_strlit("$argon2id$v=19$m=19456,t=2,p=1$cmFuZG9tc2FsdGxvbA$");
    assert(field =~= seq!['c', 'm', 'F', 'u', 'Z', 'G', '9', 't', 'c', '2', 'F', 's', 'd', 'G', 'x', 'v', 'b', 'A']);
    assert("$argon2id$v=19$m=19456,t=2,p=1$"@ + field + "$"@
        =~= "$argon2id$v=19$m=19456,t=2,p=1$cmFuZG9tc2FsdGxvbA$"@);
}

/// Hashes a password for storage. The result depends on the password alone,
/// has the encoded form above, and checking the same password against it
/// succeeds.
pub fn hash_password(password: &str) -> (hash: String)
    requires
        password.spec_bytes().len() <= u32::MAX,
    ensures
        hash@ == spec_hash_password(password@),
        spec_password_digest(password@).len() == 32,
        password_matches(hash@, password@),
{
    let salt = password_salt();
    match hash_encoded_default(password.as_bytes(), salt.as_slice()) {
        Ok(encoded) => {
            proof {
                lemma_fixed_salt_encoding(spec_password_digest(password@));
            }
            encoded
        },
        Err(_) => {
            proof {
                assert(false);
            }
            String::new()
        },
    }
}

/// Checks `password` against the stored `hash`, keeping Argon2's error when it
/// cannot check the hash at all.
pub fn check_password(hash: &str, password: &str) -> (r: Result<bool, PasswordCheckError>)
    ensures
        r is Err <==> argon2_verify_encoded(hash@, vstd::utf8::encode_utf8(password@)) is None,
        r matches Ok(b) ==> b == password_matches(hash@, password@),
{
    match verify_encoded(hash, password.as_bytes()) {
        Ok(result) => Ok(result),
        Err(e) => Err(PasswordCheckError(e)),
    }
}

/// The verdict of a check: a hash that could not be checked counts as no match.
pub fn check_outcome(check: &Result<bool, PasswordCheckError>) -> (ok: bool)
    ensures
        ok == (*check matches Ok(b) && b),
{
    match check {
        Ok(b) => *b,
        Err(_) => false,
    }
}

/// Whether `password` matches the stored `hash`; a hash that cannot be
/// checked counts as no match.
pub fn verify_password(hash: &str, password: &str) -> (ok: bool)
    ensures
        ok == password_matches(hash@, password@),
{
    let check = check_password(hash, password);
    check_outcome(&check)
}

/// Checks `provided` against the hash stored for an account, given the hash
/// that was found for it, if any: no account means no match, and an error
/// means the stored hash could not be checked.
pub fn stored_password_check(stored_hash: Option<&str>, provided: &str) -> (r: Result<
    bool,
    PasswordCheckError,
>)
    ensures
        stored_hash is None ==> (r matches Ok(b) && !b),
        stored_hash matches Some(hash) ==> (r is Err <==> argon2_verify_encoded(
            hash@,
            vstd::utf8::encode_utf8(provided@),
        ) is None),
        stored_hash matches Some(hash) ==> (r matches Ok(b) ==> b == password_matches(
            hash@,
            provided@,
        )),
{
    match stored_hash {
        Some(hash) => check_password(hash, provided),
        None => Ok(false),
    }
}

} // verus!
