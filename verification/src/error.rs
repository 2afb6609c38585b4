//! The error type shared by every operation of the crate.

use vstd::prelude::*;
use vstd::string::StringExecFns;

verus! {

/// Errors that can occur when managing notarizations.
///
/// Every variant carries the detail that the rendered message ends with.
#[derive(Debug, Clone, PartialEq, Eq)]
#[non_exhaustive]
pub enum Error {
    /// Caused by invalid keys.
    InvalidKey(String),
    /// Config is invalid.
    InvalidConfig(String),
    /// An error caused by either a connection issue or an invalid RPC call.
    RpcError(String),
    /// The ledger client returned an error.
    IotaClient(String),
    /// Generic error.
    GenericError(String),
    /// Failed to parse a type tag.
    FailedToParseTag(String),
    /// Invalid argument.
    InvalidArgument(String),
    /// Invalid unlock time.
    TimeLock(String),
    /// The response from the node API was not in the expected format.
    UnexpectedApiResponse(String),
    /// Failed to deserialize data using BCS.
    DeserializationError(String),
    /// The response to a submitted transaction was not in the expected format.
    TransactionUnexpectedResponse(String),
    /// Failed to get an object from the ledger.
    ObjectLookup(String),
}

/// The kinds of error, without their detail.
#[derive(Debug, Clone, Copy, PartialEq, Eq, Structural)]
pub enum ErrorKind {
    InvalidKey,
    InvalidConfig,
    RpcError,
    IotaClient,
    GenericError,
    FailedToParseTag,
    InvalidArgument,
    TimeLock,
    UnexpectedApiResponse,
    DeserializationError,
    TransactionUnexpectedResponse,
    ObjectLookup,
}

/// What an `Error` holds: its kind and the characters of its detail.
pub struct ErrorView {
    pub kind: ErrorKind,
    pub detail: Seq<char>,
}

impl View for Error {
    type V = ErrorView;

    open spec fn view(&self) -> ErrorView {
        ErrorView { kind: self.spec_kind(), detail: self.detail() }
    }
}

/// The view of an error of the given kind and detail.
pub open spec fn failure(kind: ErrorKind, detail: Seq<char>) -> ErrorView {
    ErrorView { kind, detail }
}

impl Error {
    /// The kind of the error.
    pub open spec fn spec_kind(&self) -> ErrorKind {
        match self {
            Error::InvalidKey(_) => ErrorKind::InvalidKey,
            Error::InvalidConfig(_) => ErrorKind::InvalidConfig,
            Error::RpcError(_) => ErrorKind::RpcError,
            Error::IotaClient(_) => ErrorKind::IotaClient,
            Error::GenericError(_) => ErrorKind::GenericError,
            Error::FailedToParseTag(_) => ErrorKind::FailedToParseTag,
            Error::InvalidArgument(_) => ErrorKind::InvalidArgument,
            Error::TimeLock(_) => ErrorKind::TimeLock,
            Error::UnexpectedApiResponse(_) => ErrorKind::UnexpectedApiResponse,
            Error::DeserializationError(_) => ErrorKind::DeserializationError,
            Error::TransactionUnexpectedResponse(_) => ErrorKind::TransactionUnexpectedResponse,
            Error::ObjectLookup(_) => ErrorKind::ObjectLookup,
        }
    }

    /// The kind of the error.
    #[verifier::when_used_as_spec(spec_kind)]
    pub fn kind(&self) -> (kind: ErrorKind)
        ensures
            kind == self.spec_kind(),
    {
        match self {
            Error::InvalidKey(_) => ErrorKind::InvalidKey,
            Error::InvalidConfig(_) => ErrorKind::InvalidConfig,
            Error::RpcError(_) => ErrorKind::RpcError,
            Error::IotaClient(_) => ErrorKind::IotaClient,
            Error::GenericError(_) => ErrorKind::GenericError,
            Error::FailedToParseTag(_) => ErrorKind::FailedToParseTag,
            Error::InvalidArgument(_) => ErrorKind::InvalidArgument,
            Error::TimeLock(_) => ErrorKind::TimeLock,
            Error::UnexpectedApiResponse(_) => ErrorKind::UnexpectedApiResponse,
            Error::DeserializationError(_) => ErrorKind::DeserializationError,
            Error::TransactionUnexpectedResponse(_) => ErrorKind::TransactionUnexpectedResponse,
            Error::ObjectLookup(_) => ErrorKind::ObjectLookup,
        }
    }

    /// The detail carried by the error, whatever its kind.
    pub open spec fn detail(self) -> Seq<char> {
        match self {
            Error::InvalidKey(s) => s@,
            Error::InvalidConfig(s) => s@,
            Error::RpcError(s) => s@,
            Error::IotaClient(s) => s@,
            Error::GenericError(s) => s@,
            Error::FailedToParseTag(s) => s@,
            Error::InvalidArgument(s) => s@,
            Error::TimeLock(s) => s@,
            Error::UnexpectedApiResponse(s) => s@,
            Error::DeserializationError(s) => s@,
            Error::TransactionUnexpectedResponse(s) => s@,
            Error::ObjectLookup(s) => s@,
        }
    }

    /// The fixed text that the rendered message of each kind starts with.
    pub open spec fn prefix(self) -> Seq<char> {
        match self {
            Error::InvalidKey(_) => "invalid key: "@,
            Error::InvalidConfig(_) => "invalid config: "@,
            Error::RpcError(_) => "RPC error: "@,
            Error::IotaClient(_) => "IOTA client error: "@,
            Error::GenericError(_) => ""@,
            Error::FailedToParseTag(_) => "Failed to parse tag: "@,
            Error::InvalidArgument(_) => "Invalid argument: "@,
            Error::TimeLock(_) => "Invalid unlock time: "@,
            Error::UnexpectedApiResponse(_) => "unexpected API response: "@,
            Error::DeserializationError(_) => "BCS deserialization error: "@,
            Error::TransactionUnexpectedResponse(_) => "unexpected API response: "@,
            Error::ObjectLookup(_) => "Failed to get object with options: "@,
        }
    }

    /// The name of each kind, as a caller would match on it.
    pub open spec fn kind_name(self) -> Seq<char> {
        match self {
            Error::InvalidKey(_) => "InvalidKey"@,
            Error::InvalidConfig(_) => "InvalidConfig"@,
            Error::RpcError(_) => "RpcError"@,
            Error::IotaClient(_) => "IotaClient"@,
            Error::GenericError(_) => "GenericError"@,
            Error::FailedToParseTag(_) => "FailedToParseTag"@,
            Error::InvalidArgument(_) => "InvalidArgument"@,
            Error::TimeLock(_) => "TimeLock"@,
            Error::UnexpectedApiResponse(_) => "UnexpectedApiResponse"@,
            Error::DeserializationError(_) => "DeserializationError"@,
            Error::TransactionUnexpectedResponse(_) => "TransactionUnexpectedResponse"@,
            Error::ObjectLookup(_) => "ObjectLookup"@,
        }
    }

    /// Renders the human-readable message: the prefix of the kind, then the detail.
    pub fn message(&self) -> (text: String)
        ensures
            text@ == self.prefix() + self.detail(),
    {
        match self {
            Error::InvalidKey(s) => String::from_str("invalid key: ").concat(s.as_str()),
            Error::InvalidConfig(s) => String::from_str("invalid config: ").concat(s.as_str()),
            Error::RpcError(s) => String::from_str("RPC error: ").concat(s.as_str()),
            Error::IotaClient(s) => String::from_str("IOTA client error: ").concat(s.as_str()),
            Error::GenericError(s) => String::from_str("").concat(s.as_str()),
            Error::FailedToParseTag(s) => String::from_str("Failed to parse tag: ").concat(
                s.as_str(),
            ),
            Error::InvalidArgument(s) => String::from_str("Invalid argument: ").concat(s.as_str()),
            Error::TimeLock(s) => String::from_str("Invalid unlock time: ").concat(s.as_str()),
            Error::UnexpectedApiResponse(s) => String::from_str("unexpected API response: ").concat(
                s.as_str(),
            ),
            Error::DeserializationError(s) => String::from_str(
                "BCS deserialization error: ",
            ).concat(s.as_str()),
            Error::TransactionUnexpectedResponse(s) => String::from_str(
                "unexpected API response: ",
            ).concat(s.as_str()),
            Error::ObjectLookup(s) => String::from_str(
                "Failed to get object with options: ",
            ).concat(s.as_str()),
        }
    }

    /// The name of the error's kind as static text.
    pub fn name(&self) -> (text: &'static str)
        ensures
            text@ == self.kind_name(),
    {
        match self {
            Error::InvalidKey(_) => "InvalidKey",
            Error::InvalidConfig(_) => "InvalidConfig",
            Error::RpcError(_) => "RpcError",
            Error::IotaClient(_) => "IotaClient",
            Error::GenericError(_) => "GenericError",
            Error::FailedToParseTag(_) => "FailedToParseTag",
            Error::InvalidArgument(_) => "InvalidArgument",
            Error::TimeLock(_) => "TimeLock",
            Error::UnexpectedApiResponse(_) => "UnexpectedApiResponse",
            Error::DeserializationError(_) => "DeserializationError",
            Error::TransactionUnexpectedResponse(_) => "TransactionUnexpectedResponse",
            Error::ObjectLookup(_) => "ObjectLookup",
        }
    }
}

} // verus!
