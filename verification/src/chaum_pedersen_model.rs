//! The request and response shapes of the logic layer, and its error kinds.

use vstd::prelude::*;
use crate::num::Num;

verus! {

/// A snapshot of the public parameters handed to clients.
#[derive(Debug)]
pub struct Parameters {
    pub p: Num,
    pub q: Num,
    pub g: Num,
    pub h: Num,
    pub bit_size: u16,
}

/// A registration request: an identifier and the two public commitments.
#[derive(Debug)]
pub struct UserRegistration {
    pub user: String,
    pub y1: Num,
    pub y2: Num,
}

/// A challenge request: the user and the prover's commitments `(r1, r2)`.
#[derive(Debug)]
pub struct UserChallengeRequest {
    pub user: String,
    pub r1: Num,
    pub r2: Num,
}

/// An issued challenge: its opaque identifier and the verifier's scalar.
#[derive(Debug)]
pub struct UserChallengeResponse {
    pub auth_id: String,
    pub c: Num,
}

/// A solution attempt: the challenge identifier and the response `s`.
#[derive(Debug)]
pub struct UserSolution {
    pub auth_id: String,
    pub s: Num,
}

/// The session minted on successful verification.
#[derive(Debug)]
pub struct SessionResponse {
    pub session_id: String,
}

/// The error kinds the logic layer reports.
#[derive(Clone, Copy, PartialEq, Eq, Structural, Debug)]
pub enum ValidationErrors {
    /// The request shape is invalid: an empty identifier or a zero integer.
    InvalidArgument,
    /// Verification failed, or the named user or challenge is unknown.
    Unauthenticated,
    /// Reserved; not produced by the core operations.
    NotFound,
    /// The user identifier is already registered.
    AlreadyExists,
}

impl ValidationErrors {
    /// The deliberately generic user-visible message of this error kind.
    pub fn status_message(&self) -> (r: String)
        ensures
            *self == ValidationErrors::InvalidArgument ==> r@ == "Invalid argument"@,
            *self == ValidationErrors::Unauthenticated ==> r@ == "Unauthenticated"@,
            *self == ValidationErrors::NotFound ==> r@ == "Not found"@,
            *self == ValidationErrors::AlreadyExists ==> r@ == "Already exists"@,
    {
        match self {
            ValidationErrors::InvalidArgument => String::from_str("Invalid argument"),
            ValidationErrors::Unauthenticated => String::from_str("Unauthenticated"),
            ValidationErrors::NotFound => String::from_str("Not found"),
            ValidationErrors::AlreadyExists => String::from_str("Already exists"),
        }
    }
}

} // verus!
