//! The Argon2id primitive, as the `argon2` crate provides it.
//!
//! Nothing in this module is proved. Each function with a body hands plain
//! values to the crate and plain values back, and states as its contract what
//! the crate's source and documentation show of the call. The functions
//! without a body give a name to what the crate computes, so that the
//! contracts of the verified code can speak of it.

use crate::options::HashOptions;
use crate::phc;
use crate::phc::MAX_PARALLELISM;
use argon2::password_hash::rand_core::OsRng;
use argon2::password_hash::{PasswordHash, PasswordHasher, PasswordVerifier, Salt, SaltString};
use argon2::{Algorithm, Argon2, Params, Version};
use vstd::prelude::*;

verus! {

/// What the primitive says of a password and an encoded hash string that
/// has salt and digest.
#[derive(Debug, PartialEq, Eq)]
pub enum Verification {
    /// The password produces the digest of the string.
    Match,
    /// The password does not produce the digest of the string.
    Mismatch,
    /// The string could not be used; the primitive's message says why.
    Rejected(String),
}

/// Mathematical model of a [`Verification`].
pub enum Comparison {
    Match,
    Mismatch,
    Rejected(Seq<char>),
}

impl View for Verification {
    type V = Comparison;

    open spec fn view(&self) -> Comparison {
        match self {
            Verification::Match => Comparison::Match,
            Verification::Mismatch => Comparison::Mismatch,
            Verification::Rejected(text) => Comparison::Rejected(text@),
        }
    }
}

/// What the library reads of an encoded hash string that the primitive has
/// parsed.
#[derive(Debug, PartialEq, Eq)]
pub struct Fields {
    /// The parameter field as it is written; empty where the string has none.
    pub parameters: String,
    /// Whether the string has a salt field.
    pub has_salt: bool,
    /// Whether the string has a digest field.
    pub has_digest: bool,
}

/// Mathematical model of [`Fields`].
pub struct FieldsModel {
    pub parameters: Seq<char>,
    pub has_salt: bool,
    pub has_digest: bool,
}

impl View for Fields {
    type V = FieldsModel;

    open spec fn view(&self) -> FieldsModel {
        FieldsModel {
            parameters: self.parameters@,
            has_salt: self.has_salt,
            has_digest: self.has_digest,
        }
    }
}

/// The model of what the primitive read of a string.
pub open spec fn fields_result(read: Result<Fields, String>) -> Result<FieldsModel, Seq<char>> {
    match read {
        Ok(fields) => Ok(fields@),
        Err(message) => Err(message@),
    }
}

/// What the primitive reads of a string that it wrote for the given costs:
/// the parameter field as it was written, a salt and a digest.
pub open spec fn written_fields(costs: HashOptions) -> FieldsModel {
    FieldsModel { parameters: phc::parameter_text(costs), has_salt: true, has_digest: true }
}

/// The longest password, in bytes, that the primitive hashes.
pub const MAX_PASSWORD_BYTES: u64 = 0xFFFF_FFFF;

/// The message with which the primitive refuses a cost triple, or `None`
/// where it accepts the triple. The checks are those of `Params::new`, in its
/// order, read over the integers.
pub open spec fn cost_rejection(costs: HashOptions) -> Option<Seq<char>> {
    if costs.memory_cost < 8 || costs.memory_cost < 8 * costs.parallelism {
        Some("memory cost is too small"@)
    } else if costs.time_cost < 1 {
        Some("time cost is too small"@)
    } else if costs.parallelism < 1 {
        Some("not enough threads"@)
    } else if costs.parallelism > MAX_PARALLELISM {
        Some("too many threads"@)
    } else {
        None
    }
}

/// The cost triple that the primitive uses where the caller names none:
/// 19 MiB of memory, two passes, one lane.
pub open spec fn default_costs() -> HashOptions {
    HashOptions { time_cost: 2, memory_cost: 19456, parallelism: 1 }
}

/// The shape of a salt that the primitive generates: 22 characters of the
/// Base64 alphabet, which stand for 16 bytes.
pub open spec fn is_generated_salt(salt: Seq<char>) -> bool {
    &&& salt.len() == 22
    &&& forall|i: int| 0 <= i < salt.len() ==> is_base64_char(#[trigger] salt[i])
}

/// The shape of a digest as the primitive writes it: 43 characters of the
/// Base64 alphabet, which stand for 32 bytes.
pub open spec fn is_digest_text(digest: Seq<char>) -> bool {
    &&& digest.len() == 43
    &&& forall|i: int| 0 <= i < digest.len() ==> is_base64_char(#[trigger] digest[i])
}

/// The shape of a salt that the primitive takes: 4 to 64 characters, each a
/// letter, a digit or one of `/ + . -`.
pub open spec fn is_salt_text(salt: Seq<char>) -> bool {
    &&& 4 <= salt.len() <= 64
    &&& forall|i: int| 0 <= i < salt.len() ==> is_salt_char(#[trigger] salt[i])
}

/// Membership in the alphabet of a salt.
pub open spec fn is_salt_char(c: char) -> bool {
    ||| is_base64_char(c)
    ||| c == '.'
    ||| c == '-'
}

/// Membership in the alphabet of unpadded standard Base64.
pub open spec fn is_base64_char(c: char) -> bool {
    ||| 'A' <= c <= 'Z'
    ||| 'a' <= c <= 'z'
    ||| '0' <= c <= '9'
    ||| c == '+'
    ||| c == '/'
}

/// The finding that equal or unequal digests lead to.
pub open spec fn comparison_of(equal: bool) -> Comparison {
    if equal {
        Comparison::Match
    } else {
        Comparison::Mismatch
    }
}

/// Holds of a text whose first character is the field separator `$`.
pub open spec fn starts_with_separator(encoded: Seq<char>) -> bool {
    encoded.len() > 0 && encoded[0] == '$'
}

/// The message with which the primitive answers an encoded hash string that
/// does not begin with the field separator.
pub open spec fn missing_field_text() -> Seq<char> {
    "password hash string missing field"@
}

/// What reading a string gives where the primitive finds a field missing.
pub open spec fn missing_field_refusal() -> Result<FieldsModel, Seq<char>> {
    Err(missing_field_text())
}

/// Names what `Argon2::hash_password` derives with algorithm Argon2id,
/// version 19 and the given costs, from the bytes of a password and a salt
/// given as Base64 text: the Base64 text of the derived key, or the message
/// of the error that the crate reports instead.
pub uninterp spec fn argon2id_digest(
    password: Seq<u8>,
    salt: Seq<char>,
    memory_cost: u32,
    time_cost: u32,
    parallelism: u32,
) -> Result<Seq<char>, Seq<char>>;

/// Names what `PasswordHash::new` reads from an encoded hash string: the
/// parameter field and the presence of salt and digest, or the message of the
/// error with which the crate refuses the string.
pub uninterp spec fn phc_fields(encoded: Seq<char>) -> Result<FieldsModel, Seq<char>>;

/// Names what `PasswordHash::new` followed by `Argon2::verify_password` finds
/// for an encoded hash string and the bytes of a password.
pub uninterp spec fn phc_verification(encoded: Seq<char>, password: Seq<u8>) -> Comparison;

/// Calls `SaltString::generate` with the operating system's random number
/// generator and hands the salt out as text.
///
/// The crate fills 16 bytes and encodes them as unpadded Base64, so the text
/// has 22 characters of that alphabet. Such a salt is one that
/// `hash_password` takes: it decodes to 16 bytes, twice the least the
/// primitive asks for, so that with costs that `Params::new` accepts and a
/// password of at most [`MAX_PASSWORD_BYTES`] bytes the derivation yields a
/// digest. Of the value of the salt nothing is claimed: two calls need not
/// agree. Where the operating system yields no random bytes the crate
/// panics.
#[verifier::external_body]
pub(crate) fn generate_salt() -> (salt: String)
    ensures
        is_generated_salt(salt@),
        forall|password: Seq<u8>, memory_cost: u32, time_cost: u32, parallelism: u32|
            password.len() <= MAX_PASSWORD_BYTES && cost_rejection(
                HashOptions { time_cost, memory_cost, parallelism },
            ) is None ==> (#[trigger] argon2id_digest(
                password,
                salt@,
                memory_cost,
                time_cost,
                parallelism,
            )) is Ok,
{
    SaltString::generate(&mut OsRng).as_str().to_string()
}

/// Reads the cost triple of `Argon2::default()`.
///
/// The crate's constants `DEFAULT_M_COST`, `DEFAULT_T_COST` and
/// `DEFAULT_P_COST` are 19 * 1024, 2 and 1.
#[verifier::external_body]
pub(crate) fn primitive_default_costs() -> (costs: HashOptions)
    ensures
        costs == default_costs(),
{
    let context = Argon2::default();
    let params = context.params();
    HashOptions {
        time_cost: params.t_cost(),
        memory_cost: params.m_cost(),
        parallelism: params.p_cost(),
    }
}

/// Calls `Argon2::hash_password` on a context made by `Params::new` and
/// `Argon2::new` for Argon2id, version 19, and hands back the encoded string
/// or the text of the crate's error.
///
/// Claimed of the crate:
/// - `Params::new` refuses exactly the triples of [`cost_rejection`], with
///   that message. It multiplies the lane count by eight in `u32`, which the
///   precondition keeps from overflowing.
/// - For an accepted triple the outcome is a function of password, salt and
///   costs, named [`argon2id_digest`]; an encoded string is laid out as
///   [`phc::encoded`] says, around the salt as it was given. The digest is
///   the unpadded Base64 of 32 bytes. A salt is taken only where
///   `Salt::from_b64` accepts its length and its characters.
/// - `PasswordHash::new` reads a string that was produced back as it was
///   written: the same parameter field, with salt and digest.
/// - A string that was produced can be verified: `verify_password` reads
///   algorithm, version, costs and salt back from it, derives the key of the
///   password it is given in the same way, and reports a match exactly where
///   the two keys are equal. A password too long to be hashed is reported as
///   not matching.
///
/// The working memory, `memory_cost` KiB, is allocated by the crate.
#[verifier::external_body]
pub(crate) fn primitive_hash(password: &[u8], salt: &str, costs: &HashOptions) -> (r: Result<
    String,
    String,
>)
    requires
        8 * costs.parallelism <= u32::MAX,
    ensures
        match cost_rejection(*costs) {
            Some(text) => r matches Err(message) && message@ == text,
            None => match argon2id_digest(
                password@,
                salt@,
                costs.memory_cost,
                costs.time_cost,
                costs.parallelism,
            ) {
                Ok(digest) => r matches Ok(s) && s@ == phc::encoded(*costs, salt@, digest)
                    && is_digest_text(digest),
                Err(text) => r matches Err(message) && message@ == text,
            },
        },
        !is_salt_text(salt@) ==> r is Err,
        r matches Ok(s) ==> (phc_fields(s@) matches Ok(fields) && fields == written_fields(
            *costs,
        )),
        r matches Ok(s) ==> forall|other: Seq<u8>| #[trigger]
            phc_verification(s@, other) == comparison_of(
                argon2id_digest(
                    other,
                    salt@,
                    costs.memory_cost,
                    costs.time_cost,
                    costs.parallelism,
                ) == argon2id_digest(
                    password@,
                    salt@,
                    costs.memory_cost,
                    costs.time_cost,
                    costs.parallelism,
                ),
            ),
{
    let params = Params::new(costs.memory_cost, costs.time_cost, costs.parallelism, None)
        .map_err(|e| e.to_string())?;
    let salt = Salt::from_b64(salt).map_err(|e| e.to_string())?;
    Argon2::new(Algorithm::Argon2id, Version::V0x13, params)
        .hash_password(password, salt)
        .map(|parsed| parsed.to_string())
        .map_err(|e| e.to_string())
}

/// Calls `PasswordHash::new` on the encoded string and hands out what the
/// library reads of the result, or the text of the crate's error.
///
/// Claimed of the crate: the outcome is a function of the string, named
/// [`phc_fields`]; and a string whose first character is not `$` is refused
/// as missing a field.
#[verifier::external_body]
pub(crate) fn primitive_parse(encoded: &str) -> (r: Result<Fields, String>)
    ensures
        fields_result(r) == phc_fields(encoded@),
        !starts_with_separator(encoded@) ==> fields_result(r) == missing_field_refusal(),
{
    match PasswordHash::new(encoded) {
        Ok(parsed) => Ok(
            Fields {
                parameters: parsed.params.as_str().to_string(),
                has_salt: parsed.salt.is_some(),
                has_digest: parsed.hash.is_some(),
            },
        ),
        Err(e) => Err(e.to_string()),
    }
}

/// Calls `verify_password` of `Argon2::default()` on an encoded string that
/// `PasswordHash::new` reads with salt and digest.
///
/// Claimed of the crate: the outcome is a function of the two arguments,
/// named [`phc_verification`]; the error `Password` is the crate's report
/// that the password does not verify, every other error is handed back as its
/// text.
///
/// The crate builds its parameters from the parameter field with
/// `Params::new`, which multiplies the lane count by eight in `u32`. The
/// precondition leaves out every field in which a lane count of nine digits
/// or more is written, and with them every count whose eightfold does not
/// fit.
#[verifier::external_body]
pub(crate) fn primitive_verify(encoded: &str, password: &[u8]) -> (r: Verification)
    requires
        phc_fields(encoded@) matches Ok(fields) && fields.has_salt && fields.has_digest
            && !phc::has_long_lane_count(fields.parameters),
    ensures
        r@ == phc_verification(encoded@, password@),
{
    match PasswordHash::new(encoded) {
        Err(e) => Verification::Rejected(e.to_string()),
        Ok(parsed) => match Argon2::default().verify_password(password, &parsed) {
            Ok(()) => Verification::Match,
            Err(argon2::password_hash::Error::Password) => Verification::Mismatch,
            Err(e) => Verification::Rejected(e.to_string()),
        },
    }
}

} // verus!
