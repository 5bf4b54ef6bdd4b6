//! Hashing of a password into an encoded hash string.

use crate::error::{text_result, Failure, PasswordError};
use crate::options::HashOptions;
use crate::phc;
use crate::primitive::{
    argon2id_digest, cost_rejection, default_costs, generate_salt, is_digest_text,
    is_generated_salt, is_salt_text, primitive_default_costs, primitive_hash,
    MAX_PASSWORD_BYTES,
};
use crate::verifying::verify_outcome;
use vstd::prelude::*;
use vstd::utf8::encode_utf8;

verus! {

/// The largest lane count whose eightfold still fits in 32 bits.
pub const MAX_CHECKED_PARALLELISM: u32 = 0x1FFF_FFFF;

/// The detail text of the error that answers an empty password.
pub open spec fn empty_password_text() -> Seq<char> {
    "Password cannot be empty"@
}

/// The costs that a call hashes with: the caller's, or the primitive's
/// defaults where the caller gives none.
pub open spec fn effective_costs(options: Option<HashOptions>) -> HashOptions {
    match options {
        Some(costs) => costs,
        None => default_costs(),
    }
}

/// The error that a call is refused with before any salt is drawn, or `None`
/// where the call goes on to derive a digest. In order: an empty password,
/// ill-formed options, costs that the primitive does not accept.
pub open spec fn refusal(password: Seq<char>, options: Option<HashOptions>) -> Option<Failure> {
    if password.len() == 0 {
        Some(Failure::InvalidInput(empty_password_text()))
    } else if options matches Some(costs) && !costs.valid() {
        Some(HashOptions::rejection())
    } else {
        match cost_rejection(effective_costs(options)) {
            Some(text) => Some(Failure::InvalidParams(text)),
            None => None,
        }
    }
}

/// The result that an outcome of the primitive leads to: the encoded string
/// around the digest, or the primitive's message as `InvalidParams`.
pub open spec fn encoding_of(
    costs: HashOptions,
    salt: Seq<char>,
    outcome: Result<Seq<char>, Seq<char>>,
) -> Result<Seq<char>, Failure> {
    match outcome {
        Ok(digest) => Ok(phc::encoded(costs, salt, digest)),
        Err(text) => Err(Failure::InvalidParams(text)),
    }
}

/// What the primitive derives from a password as text, under the given costs
/// and salt.
pub open spec fn digest_of(password: Seq<char>, costs: HashOptions, salt: Seq<char>) -> Result<
    Seq<char>,
    Seq<char>,
> {
    argon2id_digest(
        encode_utf8(password),
        salt,
        costs.memory_cost,
        costs.time_cost,
        costs.parallelism,
    )
}

/// What hashing returns for a password, a salt and costs that the primitive
/// accepts.
pub open spec fn derivation(password: Seq<char>, costs: HashOptions, salt: Seq<char>) -> Result<
    Seq<char>,
    Failure,
> {
    encoding_of(costs, salt, digest_of(password, costs, salt))
}

/// Holds of an encoded string that answers verification as a hash of
/// `password` under `costs` and `salt` must: every non-empty password is
/// answered without error, with `true` exactly where its digest is that of
/// `password`.
pub open spec fn answers_for(
    encoded: Seq<char>,
    password: Seq<char>,
    costs: HashOptions,
    salt: Seq<char>,
) -> bool {
    forall|other: Seq<char>|
        other.len() > 0 ==> #[trigger] verify_outcome(encoded, other) == Ok::<bool, Failure>(
            digest_of(other, costs, salt) == digest_of(password, costs, salt),
        )
}

/// Holds of a result of hashing `password` under `costs` and `salt`: it is
/// what the derivation gives, and where it is a string, the salt and the
/// digest in it have the shape of their fields and the string answers
/// verification for that password.
pub open spec fn hashed_with(
    r: Result<String, PasswordError>,
    password: Seq<char>,
    costs: HashOptions,
    salt: Seq<char>,
) -> bool {
    &&& text_result(r) == derivation(password, costs, salt)
    &&& !is_salt_text(salt) ==> r is Err
    &&& digest_of(password, costs, salt) matches Ok(digest) ==> is_digest_text(digest)
    &&& r matches Ok(encoded) ==> answers_for(encoded@, password, costs, salt)
}

/// Holds of a password that the primitive can hash: its UTF-8 encoding has
/// at most [`MAX_PASSWORD_BYTES`] bytes.
pub open spec fn hashable(password: Seq<char>) -> bool {
    encode_utf8(password).len() <= MAX_PASSWORD_BYTES
}

/// What hashing returns for a password, optional costs and a salt.
pub open spec fn hash_outcome(
    password: Seq<char>,
    options: Option<HashOptions>,
    salt: Seq<char>,
) -> Result<Seq<char>, Failure> {
    match refusal(password, options) {
        Some(failure) => Err(failure),
        None => derivation(password, effective_costs(options), salt),
    }
}

/// Law of the wrong password: verification of a hash against a password
/// other than the one that was hashed answers `false`, for every pair of
/// passwords to which the primitive gives different digests under the costs
/// and the salt of the hash. [`hash`] and [`hash_with_salt`] establish the
/// premise for each string they return.
pub proof fn lemma_other_password_is_refused(
    encoded: Seq<char>,
    password: Seq<char>,
    other: Seq<char>,
    costs: HashOptions,
    salt: Seq<char>,
)
    requires
        answers_for(encoded, password, costs, salt),
        other.len() > 0,
        digest_of(other, costs, salt) != digest_of(password, costs, salt),
    ensures
        verify_outcome(encoded, other) == Ok::<bool, Failure>(false),
{
}

/// Law of the round trip: verification of a hash against the password that
/// was hashed answers `true`.
pub proof fn lemma_same_password_is_accepted(
    encoded: Seq<char>,
    password: Seq<char>,
    costs: HashOptions,
    salt: Seq<char>,
)
    requires
        answers_for(encoded, password, costs, salt),
        password.len() > 0,
    ensures
        verify_outcome(encoded, password) == Ok::<bool, Failure>(true),
{
}

/// Rejects an empty password.
pub fn check_password(password: &str) -> (r: Result<(), PasswordError>)
    ensures
        password@.len() > 0 ==> r is Ok,
        password@.len() == 0 ==> (r matches Err(e) && e@ == Failure::InvalidInput(
            empty_password_text(),
        )),
{
    if password.is_empty() {
        return Err(PasswordError::invalid_input("Password cannot be empty"));
    }
    Ok(())
}

/// The parameter validator: settles the costs of a call.
///
/// Costs given by the caller must be well formed and are then taken as they
/// are; where none are given, the primitive's defaults apply.
pub fn resolve_costs(options: Option<HashOptions>) -> (r: Result<HashOptions, PasswordError>)
    ensures
        match options {
            Some(costs) if !costs.valid() => r matches Err(e) && e@ == HashOptions::rejection(),
            _ => r == Ok::<HashOptions, PasswordError>(effective_costs(options)),
        },
{
    match options {
        Some(costs) => match costs.validate() {
            Ok(()) => Ok(costs),
            Err(e) => Err(e),
        },
        None => Ok(primitive_default_costs()),
    }
}

/// Turns what the primitive handed back into the result of hashing: an
/// encoded string is passed on, a message becomes `InvalidParams`.
pub fn classify(outcome: Result<String, String>) -> (r: Result<String, PasswordError>)
    ensures
        match outcome {
            Ok(encoded) => text_result(r) == Ok::<Seq<char>, Failure>(encoded@),
            Err(message) => text_result(r) == Err::<Seq<char>, Failure>(
                Failure::InvalidParams(message@),
            ),
        },
{
    match outcome {
        Ok(encoded) => Ok(encoded),
        Err(message) => Err(PasswordError::invalid_params(message)),
    }
}

/// Derives the encoded hash of a password under settled costs and a salt.
fn derive(password: &str, costs: &HashOptions, salt: &str) -> (r: Result<String, PasswordError>)
    ensures
        match cost_rejection(*costs) {
            Some(text) => text_result(r) == Err::<Seq<char>, Failure>(
                Failure::InvalidParams(text),
            ),
            None => hashed_with(r, password@, *costs, salt@),
        },
        r matches Ok(encoded) ==> phc::algorithm_field().is_prefix_of(encoded@),
{
    if costs.parallelism > MAX_CHECKED_PARALLELISM {
        // The primitive holds the memory cost against eight times the lane
        // count, computed in 32 bits. Beyond this lane count the product no
        // longer fits and no memory cost reaches it, so the answer is the one
        // of that comparison.
        return Err(PasswordError::invalid_params("memory cost is too small".to_string()));
    }
    let outcome = primitive_hash(password.as_bytes(), salt, costs);
    proof {
        if outcome is Ok {
            let digest = digest_of(password@, *costs, salt@)->Ok_0;
            phc::lemma_encoded_starts_with_algorithm(*costs, salt@, digest);
            phc::lemma_written_parameters_have_no_long_lane_count(*costs);
        }
    }
    classify(outcome)
}

/// Hashes a password with a salt of the caller's choosing.
///
/// This is [`hash`] without its draw of a salt, and so a function of its
/// arguments: the same password, options and salt give the same string.
pub fn hash_with_salt(password: &str, options: Option<HashOptions>, salt: &str) -> (r: Result<
    String,
    PasswordError,
>)
    ensures
        text_result(r) == hash_outcome(password@, options, salt@),
        refusal(password@, options) is None ==> hashed_with(
            r,
            password@,
            effective_costs(options),
            salt@,
        ),
        r matches Ok(encoded) ==> phc::algorithm_field().is_prefix_of(encoded@),
        r matches Ok(encoded) ==> verify_outcome(encoded@, password@) == Ok::<bool, Failure>(true),
{
    match check_password(password) {
        Err(e) => Err(e),
        Ok(()) => match resolve_costs(options) {
            Err(e) => Err(e),
            Ok(costs) => derive(password, &costs, salt),
        },
    }
}

/// Hashes a password that is known not to be empty: settles the costs, draws
/// a fresh salt and derives the encoded hash.
fn argon2id_hash(password: &str, options: Option<HashOptions>) -> (r: Result<String, PasswordError>)
    requires
        password@.len() > 0,
    ensures
        match refusal(password@, options) {
            Some(failure) => text_result(r) == Err::<Seq<char>, Failure>(failure),
            None => exists|salt: Seq<char>|
                is_generated_salt(salt) && #[trigger] hashed_with(
                    r,
                    password@,
                    effective_costs(options),
                    salt,
                ),
        },
        refusal(password@, options) is None && hashable(password@) ==> r is Ok,
        r matches Ok(encoded) ==> phc::algorithm_field().is_prefix_of(encoded@),
        r matches Ok(encoded) ==> verify_outcome(encoded@, password@) == Ok::<bool, Failure>(true),
{
    match resolve_costs(options) {
        Err(e) => Err(e),
        Ok(costs) => {
            let salt = generate_salt();
            derive(password, &costs, salt.as_str())
        },
    }
}

/// Hashes a password using Argon2id with optional configuration.
///
/// An empty password is refused before anything else is done. Options, where
/// given, must be well formed; where absent, the primitive's default costs
/// apply. Where nothing is refused and the password has at most
/// [`MAX_PASSWORD_BYTES`] bytes, the call succeeds. Every call draws a fresh
/// random salt, so two calls on the same arguments need not agree; each
/// result begins with `$argon2id$` and verifies against the password it was
/// made from.
///
/// The primitive allocates `memory_cost` KiB of working memory and makes
/// `time_cost` passes over it; the library sets no upper limit on either.
pub fn hash(password: &str, options: Option<HashOptions>) -> (r: Result<String, PasswordError>)
    ensures
        match refusal(password@, options) {
            Some(failure) => text_result(r) == Err::<Seq<char>, Failure>(failure),
            None => exists|salt: Seq<char>|
                is_generated_salt(salt) && #[trigger] hashed_with(
                    r,
                    password@,
                    effective_costs(options),
                    salt,
                ),
        },
        refusal(password@, options) is None && hashable(password@) ==> r is Ok,
        r matches Ok(encoded) ==> phc::algorithm_field().is_prefix_of(encoded@),
        r matches Ok(encoded) ==> verify_outcome(encoded@, password@) == Ok::<bool, Failure>(true),
{
    match check_password(password) {
        Err(e) => Err(e),
        Ok(()) => argon2id_hash(password, options),
    }
}

} // verus!
