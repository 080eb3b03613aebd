//! Error taxonomy of the engine.
//!
//! Not-found and malformed-input conditions are ordinary, recoverable
//! outcomes; none of the verified functions can panic.

use vstd::prelude::*;
use vstd::string::StringExecFns;

verus! {

/// Failures of the authentication collaborator.
#[derive(PartialEq, Eq, Structural, Clone, Copy, Debug)]
pub enum AuthError {
    /// The supplied credentials do not match any account.
    WrongCredentials,
    /// An authentication token could not be issued.
    TokenCreation,
    /// The presented token is missing, expired or malformed.
    InvalidToken,
}

/// Top-level error of the engine and its collaborator interfaces.
#[derive(PartialEq, Eq, Clone, Debug)]
pub enum MyError {
    /// An authentication failure.
    Auth(AuthError),
    /// The caller is not allowed to perform the operation.
    Unauthorized,
    /// The input failed validation; the payload names the reason.
    Validation(String),
    /// The room, player or record addressed by the operation is absent.
    NotFound,
    /// The persistence collaborator reported a query failure.
    DatabaseError,
    /// The persistence collaborator could not hand out a connection.
    PoolError,
    /// A token could not be decoded.
    JwtDecodeError,
    /// An invariant the caller relies on did not hold.
    InternalError,
}

/// HTTP status code a transport shell should answer with for each error.
pub open spec fn status_code_spec(e: MyError) -> u16 {
    match e {
        MyError::Auth(AuthError::WrongCredentials) => 401,
        MyError::Auth(AuthError::InvalidToken) => 401,
        MyError::Auth(AuthError::TokenCreation) => 500,
        MyError::Unauthorized => 401,
        MyError::NotFound => 404,
        MyError::Validation(_) => 500,
        MyError::DatabaseError => 500,
        MyError::PoolError => 500,
        MyError::JwtDecodeError => 500,
        MyError::InternalError => 500,
    }
}

impl AuthError {
    /// The human-readable message of this failure, as a transport shell
    /// renders it.
    pub fn message(&self) -> (r: String)
        ensures
            self == AuthError::WrongCredentials ==> r@ == "Wrong authentication credentials"@,
            self == AuthError::TokenCreation ==> r@ == "Failed to create authentication token"@,
            self == AuthError::InvalidToken ==> r@ == "Invalid authentication credentials"@,
    {
        match self {
            AuthError::WrongCredentials => "Wrong authentication credentials".to_owned(),
            AuthError::TokenCreation => "Failed to create authentication token".to_owned(),
            AuthError::InvalidToken => "Invalid authentication credentials".to_owned(),
        }
    }
}

impl MyError {
    /// The human-readable message of this error, as a transport shell
    /// renders it; a validation error names its reason.
    pub fn message(&self) -> (r: String)
        ensures
            match self {
                MyError::Auth(a) => r@ == (match a {
                    AuthError::WrongCredentials => "Wrong authentication credentials"@,
                    AuthError::TokenCreation => "Failed to create authentication token"@,
                    AuthError::InvalidToken => "Invalid authentication credentials"@,
                }),
                MyError::Unauthorized => r@ == "Unauthorized access"@,
                MyError::Validation(reason) => r@ == "Validation error: "@ + reason@,
                MyError::NotFound => r@ == "Not found"@,
                MyError::DatabaseError => r@ == "Database error"@,
                MyError::PoolError => r@ == "Pool error"@,
                MyError::JwtDecodeError => r@ == "JWT decoding failed"@,
                MyError::InternalError => r@ == "Internal server error"@,
            },
    {
        match self {
            MyError::Auth(a) => a.message(),
            MyError::Unauthorized => "Unauthorized access".to_owned(),
            MyError::Validation(reason) => {
                let mut s = "Validation error: ".to_owned();
                s.append(reason.as_str());
                s
            },
            MyError::NotFound => "Not found".to_owned(),
            MyError::DatabaseError => "Database error".to_owned(),
            MyError::PoolError => "Pool error".to_owned(),
            MyError::JwtDecodeError => "JWT decoding failed".to_owned(),
            MyError::InternalError => "Internal server error".to_owned(),
        }
    }

    /// The HTTP status code this error maps to.
    pub fn get_status_code(&self) -> (r: u16)
        ensures
            r == status_code_spec(*self),
    {
        match self {
            MyError::Auth(AuthError::WrongCredentials) => 401,
            MyError::Auth(AuthError::InvalidToken) => 401,
            MyError::Auth(AuthError::TokenCreation) => 500,
            MyError::Unauthorized => 401,
            MyError::NotFound => 404,
            MyError::Validation(_) => 500,
            MyError::DatabaseError => 500,
            MyError::PoolError => 500,
            MyError::JwtDecodeError => 500,
            MyError::InternalError => 500,
        }
    }
}

} // verus!
