//! Failures of the stores and their rendering at the API boundary.

use vstd::prelude::*;
use vstd::string::*;

verus! {

/// A request that is malformed before any store is consulted.
#[derive(Debug, Clone, Copy, PartialEq, Eq, Structural)]
pub enum ValidationError {
    /// The task identifier is not a well-formed unique identifier.
    MalformedId,
    /// The journal date is not a calendar date written `YYYY-MM-DD`.
    MalformedDate,
}

/// Why a credential operation was turned down.
#[derive(Debug, PartialEq, Eq)]
pub enum AuthError {
    /// No user is registered under the username.
    AccountNotFound,
    /// The password does not verify against the stored hash.
    InvalidCredentials,
    /// The username is already registered.
    DuplicateUsername,
    /// The password could not be hashed; the text is the hasher's message.
    HashingFailed(String),
}

/// A failure of the persistence layer.
#[derive(Debug, PartialEq, Eq)]
pub enum StorageError {
    /// A row with the same identifier already exists.
    DuplicateKey,
    /// The store holds as many rows as it can count.
    CapacityExhausted,
    /// The storage engine reported a failure; the text is its message.
    Engine(String),
}

/// Any failure of an operation, by its class.
#[derive(Debug, PartialEq, Eq)]
pub enum ApiError {
    Validation(ValidationError),
    Auth(AuthError),
    Storage(StorageError),
}

/// A failure as the transport sees it: a status code and a message.
#[derive(Debug, PartialEq, Eq)]
pub struct Failure {
    pub status: u16,
    pub message: String,
}

/// Mathematical value of a [`Failure`].
pub struct FailureView {
    pub status: u16,
    pub message: Seq<char>,
}

impl View for Failure {
    type V = FailureView;

    open spec fn view(&self) -> FailureView {
        FailureView { status: self.status, message: self.message@ }
    }
}

/// Status of a request that is malformed in its identifier.
pub const STATUS_BAD_REQUEST: u16 = 400;

/// Status of a request whose credentials were not accepted.
pub const STATUS_UNAUTHORIZED: u16 = 401;

/// Status of a request whose body holds a value that cannot be used.
pub const STATUS_UNPROCESSABLE: u16 = 422;

/// Status of a request that failed in hashing or in storage.
pub const STATUS_INTERNAL: u16 = 500;

impl ValidationError {
    /// The status code a validation failure is reported with.
    pub open spec fn status_code(self) -> u16 {
        match self {
            ValidationError::MalformedId => STATUS_BAD_REQUEST,
            ValidationError::MalformedDate => STATUS_UNPROCESSABLE,
        }
    }

    /// The message a validation failure is reported with.
    pub open spec fn message_text(self) -> Seq<char> {
        match self {
            ValidationError::MalformedId => "Invalid task id"@,
            ValidationError::MalformedDate => "Invalid date"@,
        }
    }

    /// The failure as the transport sees it.
    pub open spec fn failure(self) -> FailureView {
        FailureView { status: self.status_code(), message: self.message_text() }
    }

    /// Renders the failure for the transport.
    pub fn to_failure(self) -> (f: Failure)
        ensures
            f@ == self.failure(),
    {
        match self {
            ValidationError::MalformedId => Failure {
                status: STATUS_BAD_REQUEST,
                message: String::from_str("Invalid task id"),
            },
            ValidationError::MalformedDate => Failure {
                status: STATUS_UNPROCESSABLE,
                message: String::from_str("Invalid date"),
            },
        }
    }
}

impl AuthError {
    /// The status code a credential failure is reported with: the two login
    /// failures are refusals, the two registration failures are server faults.
    pub open spec fn status_code(self) -> u16 {
        match self {
            AuthError::AccountNotFound => STATUS_UNAUTHORIZED,
            AuthError::InvalidCredentials => STATUS_UNAUTHORIZED,
            AuthError::DuplicateUsername => STATUS_INTERNAL,
            AuthError::HashingFailed(_) => STATUS_INTERNAL,
        }
    }

    /// The message a credential failure is reported with.
    pub open spec fn message_text(self) -> Seq<char> {
        match self {
            AuthError::AccountNotFound => "Account not found"@,
            AuthError::InvalidCredentials => "Wrong password"@,
            AuthError::DuplicateUsername => "DB Error: username already exists"@,
            AuthError::HashingFailed(text) => text@,
        }
    }

    /// The failure as the transport sees it.
    pub open spec fn failure(self) -> FailureView {
        FailureView { status: self.status_code(), message: self.message_text() }
    }

    /// Renders the failure for the transport.
    pub fn to_failure(self) -> (f: Failure)
        ensures
            f@ == self.failure(),
    {
        match self {
            AuthError::AccountNotFound => Failure {
                status: STATUS_UNAUTHORIZED,
                message: String::from_str("Account not found"),
            },
            AuthError::InvalidCredentials => Failure {
                status: STATUS_UNAUTHORIZED,
                message: String::from_str("Wrong password"),
            },
            AuthError::DuplicateUsername => Failure {
                status: STATUS_INTERNAL,
                message: String::from_str("DB Error: username already exists"),
            },
            AuthError::HashingFailed(text) => Failure { status: STATUS_INTERNAL, message: text },
        }
    }
}

impl StorageError {
    /// The message a storage failure is reported with.
    pub open spec fn message_text(self) -> Seq<char> {
        match self {
            StorageError::DuplicateKey => "duplicate key value violates unique constraint"@,
            StorageError::CapacityExhausted => "storage capacity exhausted"@,
            StorageError::Engine(text) => text@,
        }
    }

    /// The failure as the transport sees it: always a server fault, with
    /// the storage layer's own message.
    pub open spec fn failure(self) -> FailureView {
        FailureView { status: STATUS_INTERNAL, message: self.message_text() }
    }

    /// Renders the failure for the transport.
    pub fn to_failure(self) -> (f: Failure)
        ensures
            f@ == self.failure(),
    {
        match self {
            StorageError::DuplicateKey => Failure {
                status: STATUS_INTERNAL,
                message: String::from_str("duplicate key value violates unique constraint"),
            },
            StorageError::CapacityExhausted => Failure {
                status: STATUS_INTERNAL,
                message: String::from_str("storage capacity exhausted"),
            },
            StorageError::Engine(text) => Failure { status: STATUS_INTERNAL, message: text },
        }
    }
}

impl ApiError {
    /// The failure as the transport sees it: that of the error inside.
    pub open spec fn failure(self) -> FailureView {
        match self {
            ApiError::Validation(e) => e.failure(),
            ApiError::Auth(e) => e.failure(),
            ApiError::Storage(e) => e.failure(),
        }
    }

    /// Renders the failure for the transport.
    pub fn to_failure(self) -> (f: Failure)
        ensures
            f@ == self.failure(),
    {
        match self {
            ApiError::Validation(e) => e.to_failure(),
            ApiError::Auth(e) => e.to_failure(),
            ApiError::Storage(e) => e.to_failure(),
        }
    }
}

} // verus!
