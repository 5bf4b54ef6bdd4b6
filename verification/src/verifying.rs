//! Verification of a password against an encoded hash string.

use crate::error::{flag_result, Failure, PasswordError};
use crate::phc::{has_long_lane_count, scan_lane_count};
use crate::primitive::{
    fields_result, missing_field_text, phc_fields, phc_verification, primitive_parse,
    primitive_verify, Comparison, Fields, FieldsModel, Verification,
};
use vstd::prelude::*;
use vstd::utf8::encode_utf8;

verus! {

/// One request for verification: the encoded hash string and the password
/// to hold against it.
#[derive(Debug, PartialEq, Eq)]
pub struct VerifyRequest {
    pub hash: String,
    pub password: String,
}

/// The detail text of the error that answers an empty argument.
pub open spec fn empty_argument_text() -> Seq<char> {
    "Hash and password cannot be empty"@
}

/// The detail text of the error that answers a lane count too long to be
/// one that the primitive supports.
pub open spec fn long_lane_count_text() -> Seq<char> {
    "too many threads"@
}

/// The error with which a string is refused for what the primitive read of
/// it, or `None` where the password is to be held against it. In order: a
/// string that the primitive could not read, a string without salt or
/// without digest, a lane count of nine digits or more. All of these are
/// malformed input, never a wrong password.
pub open spec fn objection(read: Result<FieldsModel, Seq<char>>) -> Option<Failure> {
    match read {
        Err(text) => Some(Failure::InvalidParams(text)),
        Ok(fields) => if !fields.has_salt || !fields.has_digest {
            Some(Failure::InvalidParams(missing_field_text()))
        } else if has_long_lane_count(fields.parameters) {
            Some(Failure::InvalidParams(long_lane_count_text()))
        } else {
            None
        },
    }
}

/// The result that each finding of the primitive leads to. A password that
/// does not belong to the string is an ordinary `false`; only a string that
/// the primitive could not use is an error.
pub open spec fn verdict_of(found: Comparison) -> Result<bool, Failure> {
    match found {
        Comparison::Match => Ok(true),
        Comparison::Mismatch => Ok(false),
        Comparison::Rejected(text) => Err(Failure::InvalidParams(text)),
    }
}

/// What verification returns for an encoded string and a password, both
/// known not to be empty.
pub open spec fn examination(encoded: Seq<char>, password: Seq<char>) -> Result<bool, Failure> {
    match objection(phc_fields(encoded)) {
        Some(failure) => Err(failure),
        None => verdict_of(phc_verification(encoded, encode_utf8(password))),
    }
}

/// What verification returns for an encoded string and a password.
pub open spec fn verify_outcome(encoded: Seq<char>, password: Seq<char>) -> Result<bool, Failure> {
    if encoded.len() == 0 || password.len() == 0 {
        Err(Failure::InvalidInput(empty_argument_text()))
    } else {
        examination(encoded, password)
    }
}

/// Rejects a request in which the encoded string or the password is empty.
pub fn check_arguments(hash: &str, password: &str) -> (r: Result<(), PasswordError>)
    ensures
        hash@.len() > 0 && password@.len() > 0 ==> r is Ok,
        hash@.len() == 0 || password@.len() == 0 ==> (r matches Err(e) && e@
            == Failure::InvalidInput(empty_argument_text())),
{
    if hash.is_empty() || password.is_empty() {
        return Err(PasswordError::invalid_input("Hash and password cannot be empty"));
    }
    Ok(())
}

/// Decides from what the primitive read of a string whether a password can
/// be held against it.
pub fn examine(read: &Result<Fields, String>) -> (r: Result<(), PasswordError>)
    ensures
        match objection(fields_result(*read)) {
            Some(failure) => r matches Err(e) && e@ == failure,
            None => r is Ok,
        },
{
    match read {
        Err(message) => Err(PasswordError::invalid_params(message.clone())),
        Ok(fields) => {
            if !fields.has_salt || !fields.has_digest {
                Err(
                    PasswordError::invalid_params(
                        "password hash string missing field".to_string(),
                    ),
                )
            } else if scan_lane_count(fields.parameters.as_str()) {
                Err(PasswordError::invalid_params("too many threads".to_string()))
            } else {
                Ok(())
            }
        },
    }
}

/// Turns what the primitive found into the result of verification.
pub fn verdict(found: Verification) -> (r: Result<bool, PasswordError>)
    ensures
        flag_result(r) == verdict_of(found@),
{
    match found {
        Verification::Match => Ok(true),
        Verification::Mismatch => Ok(false),
        Verification::Rejected(text) => Err(PasswordError::invalid_params(text)),
    }
}

/// Holds the password of a request against its encoded hash string.
///
/// The string is read by the primitive and looked over here. Then the
/// digest is derived anew from the password with the costs and the salt
/// found in the string, and the two digests are compared in constant time;
/// that is the primitive's work.
pub fn argon2id_verify(request: &VerifyRequest) -> (r: Result<bool, PasswordError>)
    ensures
        flag_result(r) == examination(request.hash@, request.password@),
        request.hash@.len() > 0 && request.hash@[0] != '$' ==> flag_result(r) == Err::<
            bool,
            Failure,
        >(Failure::InvalidParams(missing_field_text())),
{
    let read = primitive_parse(request.hash.as_str());
    match examine(&read) {
        Err(e) => Err(e),
        Ok(()) => {
            let found = primitive_verify(
                request.hash.as_str(),
                request.password.as_str().as_bytes(),
            );
            verdict(found)
        },
    }
}

/// Verifies a password against a stored hash.
///
/// Returns `Ok(true)` where the password belongs to the encoded string and
/// `Ok(false)` where it does not. An empty argument is `InvalidInput`. A
/// string that is malformed, that lacks its salt or its digest, or that the
/// primitive cannot use is `InvalidParams`, never `false`.
///
/// The costs written in the string decide how much memory and time the
/// primitive spends on the call; the library sets no upper limit on them
/// beyond the lane count.
pub fn verify(hash: &str, password: &str) -> (r: Result<bool, PasswordError>)
    ensures
        flag_result(r) == verify_outcome(hash@, password@),
        hash@.len() > 0 && password@.len() > 0 && hash@[0] != '$' ==> flag_result(r) == Err::<
            bool,
            Failure,
        >(Failure::InvalidParams(missing_field_text())),
{
    match check_arguments(hash, password) {
        Err(e) => Err(e),
        Ok(()) => {
            let request = VerifyRequest { hash: hash.to_string(), password: password.to_string() };
            argon2id_verify(&request)
        },
    }
}

} // verus!
