use vstd::prelude::*;
use vstd::string::*;

verus! {

/// The one error type of the library.
///
/// `IoError` carries the description of a failed read or write, which the
/// caller performs. `AeadError` is any failure of the cipher: a key or nonce of
/// the wrong length, an input too long to seal, or a failed authentication.
/// It says nothing more on purpose, so that a failed opening does not tell
/// a wrong key from a corrupted file.
#[derive(Debug, PartialEq, Eq)]
pub enum EncryptError {
    IoError(String),
    AeadError,
}

impl From<ring::error::Unspecified> for EncryptError {
    fn from(_error: ring::error::Unspecified) -> (r: EncryptError)
        ensures
            r == EncryptError::AeadError,
    {
        EncryptError::AeadError
    }
}

impl vstd::std_specs::convert::FromSpecImpl<ring::error::Unspecified> for EncryptError {
    open spec fn obeys_from_spec() -> bool {
        true
    }

    open spec fn from_spec(v: ring::error::Unspecified) -> EncryptError {
        EncryptError::AeadError
    }
}

/// The line that describes an error of the given kind.
pub open spec fn error_message(e: EncryptError) -> Seq<char> {
    match e {
        EncryptError::IoError(details) => "IO error: "@ + details@,
        EncryptError::AeadError => "AEAD error: ring::error::Unspecified"@,
    }
}

impl EncryptError {
    /// Wraps the description of a failed read or write.
    pub fn io(details: String) -> (r: EncryptError)
        ensures
            r == EncryptError::IoError(details),
    {
        EncryptError::IoError(details)
    }

    /// A one-line, human-readable description of the error.
    pub fn message(&self) -> (r: String)
        ensures
            r@ == error_message(*self),
    {
        match self {
            EncryptError::IoError(details) => {
                let head = String::from_str("IO error: ");
                head.concat(details.as_str())
            },
            EncryptError::AeadError => String::from_str("AEAD error: ring::error::Unspecified"),
        }
    }
}

} // verus!
