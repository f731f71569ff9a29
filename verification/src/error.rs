//! The error type shared by every component.

use vstd::prelude::*;
use vstd::string::*;

verus! {

/// What can go wrong in the library.
///
/// The variants carry no payload: a failure of the transport or of the store is
/// reported by its kind, and the caller that performed the outside work keeps
/// the cause.
#[derive(Clone, Copy, Debug, PartialEq, Eq, Structural)]
pub enum Error {
    /// Writing to or reading from a connection failed.
    IO,
    /// Bytes that should be text are not valid UTF-8.
    StringUTF8,
    /// A string slice is not valid UTF-8.
    StrUTF8,
    /// A transport string is not base64.
    Base64,
    /// The store failed, or answered with a value of an unexpected type.
    Redis,
    /// A stored password hash is not in the format that the check reads.
    PasswordError,
    /// The encryption peer answered with a failure status, or no connection served the request.
    RequestError,
    /// The client used up its requests.
    RequestLimitReached,
    /// A client was to be created without any scope.
    NoScopes,
    /// The client does not exist.
    ClientDoesNotExist,
    /// The connection already exists.
    ConnectionExists,
    /// A client of that name already exists.
    ClientExists,
    /// A one-time key is unknown, was already used, or has expired.
    IncorrectKey,
    /// The barcode image could not be written.
    FailedCreatePNG,
    /// The user does not exist.
    UserDoesNotExist,
    /// A user of that name or email address already exists.
    UserExists,
    /// Decrypted bytes are not a mapping from field names to texts, or a field's text
    /// is not what the field holds.
    Json,
    /// A mapping holds a field that the library never writes.
    UnknownField,
}

impl Error {
    /// The text that describes each kind of error.
    pub open spec fn description_text(self) -> Seq<char> {
        match self {
            Error::IO => "input or output failed"@,
            Error::StringUTF8 => "invalid utf-8 sequence"@,
            Error::StrUTF8 => "invalid utf-8 slice"@,
            Error::Base64 => "invalid base64"@,
            Error::Redis => "the store failed"@,
            Error::PasswordError => "Hash is not in Rust PBKDF2 format."@,
            Error::RequestError => "the request did not return OK"@,
            Error::RequestLimitReached => "The client reached his request limit"@,
            Error::NoScopes => "No scopes were supplied to create the client"@,
            Error::ClientDoesNotExist => "The client does not exist"@,
            Error::ConnectionExists => "Connection already exists"@,
            Error::ClientExists => "This client already exists"@,
            Error::IncorrectKey => "Incorrect key"@,
            Error::FailedCreatePNG => "Failed to create png"@,
            Error::UserDoesNotExist => "User does not exist"@,
            Error::UserExists => "This user already exists"@,
            Error::Json => "failed to parse json"@,
            Error::UnknownField => "unknown field"@,
        }
    }

    /// A short description of the error.
    pub fn description(&self) -> (text: &'static str)
        ensures
            text@ == self.description_text(),
    {
        match self {
            Error::IO => "input or output failed",
            Error::StringUTF8 => "invalid utf-8 sequence",
            Error::StrUTF8 => "invalid utf-8 slice",
            Error::Base64 => "invalid base64",
            Error::Redis => "the store failed",
            Error::PasswordError => "Hash is not in Rust PBKDF2 format.",
            Error::RequestError => "the request did not return OK",
            Error::RequestLimitReached => "The client reached his request limit",
            Error::NoScopes => "No scopes were supplied to create the client",
            Error::ClientDoesNotExist => "The client does not exist",
            Error::ConnectionExists => "Connection already exists",
            Error::ClientExists => "This client already exists",
            Error::IncorrectKey => "Incorrect key",
            Error::FailedCreatePNG => "Failed to create png",
            Error::UserDoesNotExist => "User does not exist",
            Error::UserExists => "This user already exists",
            Error::Json => "failed to parse json",
            Error::UnknownField => "unknown field",
        }
    }

    /// Whether the error stems from the transport or the store, and not from the caller.
    pub open spec fn is_infrastructure(self) -> bool {
        self == Error::IO || self == Error::Redis || self == Error::RequestError
            || self == Error::FailedCreatePNG
    }

    /// Whether the error tells of trouble with the transport or the store. Such an
    /// error is reported without detail; every other kind is the caller's to correct.
    pub fn concerns_infrastructure(&self) -> (infrastructure: bool)
        ensures
            infrastructure == self.is_infrastructure(),
    {
        match self {
            Error::IO | Error::Redis | Error::RequestError | Error::FailedCreatePNG => true,
            _ => false,
        }
    }
}

/// An error with its cause: what the store or the transport reported, in the words
/// of whoever performed the outside work.
#[derive(Debug)]
pub struct Failure {
    /// The kind of the error.
    pub error: Error,
    /// What caused it.
    pub cause: String,
}

impl Error {
    /// The error with its cause.
    pub fn because(self, cause: &str) -> (failure: Failure)
        ensures
            failure.error == self,
            failure.cause@ == cause@,
    {
        Failure { error: self, cause: String::from_str(cause) }
    }
}

impl Failure {
    /// The description of the error, a colon, and the cause.
    pub fn description(&self) -> (text: String)
        ensures
            text@ == self.error.description_text() + ": "@ + self.cause@,
    {
        let mut text = String::from_str(self.error.description());
        text.append(": ");
        text.append(self.cause.as_str());
        text
    }
}

} // verus!
