//! The closed set of errors shared by hashing and verification.

use vstd::prelude::*;

verus! {

/// Why a call failed. Each kind carries one human-readable detail string.
#[derive(Debug, PartialEq, Eq)]
pub enum PasswordError {
    /// Caller-supplied options could not be decoded into `HashOptions`.
    Serialization(String),
    /// Cost parameters or an encoded hash string were rejected by the
    /// Argon2id primitive; the detail is the primitive's own message.
    InvalidParams(String),
    /// A precondition that is the caller's responsibility was violated
    /// before the primitive was reached.
    InvalidInput(String),
}

/// Mathematical model of a [`PasswordError`]: its kind and its detail text.
pub enum Failure {
    Serialization(Seq<char>),
    InvalidParams(Seq<char>),
    InvalidInput(Seq<char>),
}

impl Failure {
    /// The detail text carried by the failure.
    pub open spec fn detail(self) -> Seq<char> {
        match self {
            Failure::Serialization(d) => d,
            Failure::InvalidParams(d) => d,
            Failure::InvalidInput(d) => d,
        }
    }

    /// The fixed text that introduces the detail when the failure is rendered.
    pub open spec fn heading(self) -> Seq<char> {
        match self {
            Failure::Serialization(_) => "Serialization error: "@,
            Failure::InvalidParams(_) => "Invalid hash parameters: "@,
            Failure::InvalidInput(_) => "Invalid password or hash: "@,
        }
    }

    /// The rendered text of the failure: heading followed by detail.
    pub open spec fn message(self) -> Seq<char> {
        self.heading() + self.detail()
    }
}

impl View for PasswordError {
    type V = Failure;

    open spec fn view(&self) -> Failure {
        match self {
            PasswordError::Serialization(d) => Failure::Serialization(d@),
            PasswordError::InvalidParams(d) => Failure::InvalidParams(d@),
            PasswordError::InvalidInput(d) => Failure::InvalidInput(d@),
        }
    }
}

/// The model of a result that carries text on success.
pub open spec fn text_result(r: Result<String, PasswordError>) -> Result<Seq<char>, Failure> {
    match r {
        Ok(text) => Ok(text@),
        Err(e) => Err(e@),
    }
}

/// The model of a result that carries a truth value on success.
pub open spec fn flag_result(r: Result<bool, PasswordError>) -> Result<bool, Failure> {
    match r {
        Ok(flag) => Ok(flag),
        Err(e) => Err(e@),
    }
}

impl PasswordError {
    /// An `InvalidParams` error with the given detail.
    pub fn invalid_params(detail: String) -> (e: PasswordError)
        ensures
            e@ == Failure::InvalidParams(detail@),
    {
        PasswordError::InvalidParams(detail)
    }

    /// An `InvalidInput` error with the given detail.
    pub fn invalid_input(detail: &str) -> (e: PasswordError)
        ensures
            e@ == Failure::InvalidInput(detail@),
    {
        PasswordError::InvalidInput(detail.to_string())
    }

    /// The detail string carried by the error.
    pub fn detail(&self) -> (d: &str)
        ensures
            d@ == self@.detail(),
    {
        match self {
            PasswordError::Serialization(d) => d.as_str(),
            PasswordError::InvalidParams(d) => d.as_str(),
            PasswordError::InvalidInput(d) => d.as_str(),
        }
    }

    /// Renders the error as one line of text: a heading that names the kind,
    /// then the detail. Nothing but the detail given at construction appears
    /// in it.
    pub fn message(&self) -> (text: String)
        ensures
            text@ == self@.message(),
    {
        let heading = match self {
            PasswordError::Serialization(_) => "Serialization error: ",
            PasswordError::InvalidParams(_) => "Invalid hash parameters: ",
            PasswordError::InvalidInput(_) => "Invalid password or hash: ",
        };
        let mut text = heading.to_string();
        text.append(self.detail());
        text
    }
}

} // verus!
