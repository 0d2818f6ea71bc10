//! Pure request-precondition checks, separated from orchestration so they
//! can be stated and tested on their own.

use vstd::prelude::*;
use crate::map_access::MapDataAccess;
use crate::chaum_pedersen_model::{UserRegistration, UserChallengeRequest, UserSolution,
    ValidationErrors};

verus! {

/// What registration validation decides: an empty identifier or a zero
/// commitment is an invalid argument; an identifier already present is a
/// conflict; anything else is accepted.
pub open spec fn spec_validate_registration(
    store: MapDataAccess,
    user: Seq<char>,
    y1: nat,
    y2: nat,
) -> Result<(), ValidationErrors> {
    if user.len() == 0 {
        Err(ValidationErrors::InvalidArgument)
    } else if y1 == 0 {
        Err(ValidationErrors::InvalidArgument)
    } else if y2 == 0 {
        Err(ValidationErrors::InvalidArgument)
    } else if store.users_map().contains_key(user) {
        Err(ValidationErrors::AlreadyExists)
    } else {
        Ok(())
    }
}

/// What challenge validation decides: an empty identifier or a zero
/// commitment is an invalid argument; an unknown user is reported as
/// unauthenticated, not as absent, so that existence is not disclosed.
pub open spec fn spec_validate_challenge(
    store: MapDataAccess,
    user: Seq<char>,
    r1: nat,
    r2: nat,
) -> Result<(), ValidationErrors> {
    if user.len() == 0 {
        Err(ValidationErrors::InvalidArgument)
    } else if r1 == 0 {
        Err(ValidationErrors::InvalidArgument)
    } else if r2 == 0 {
        Err(ValidationErrors::InvalidArgument)
    } else if !store.users_map().contains_key(user) {
        Err(ValidationErrors::Unauthenticated)
    } else {
        Ok(())
    }
}

/// What solution validation decides: an unknown challenge identifier is
/// unauthenticated; a zero response is an invalid argument.
pub open spec fn spec_validate_solution(
    store: MapDataAccess,
    auth_id: Seq<char>,
    s: nat,
) -> Result<(), ValidationErrors> {
    if !store.challenges_map().contains_key(auth_id) {
        Err(ValidationErrors::Unauthenticated)
    } else if s == 0 {
        Err(ValidationErrors::InvalidArgument)
    } else {
        Ok(())
    }
}

/// The request validator.  It holds no state of its own: each check reads
/// the store it is handed.
#[derive(Debug)]
pub struct ChaumPedersenValidationImpl {}

impl ChaumPedersenValidationImpl {
    /// A validator.
    pub fn new() -> ChaumPedersenValidationImpl {
        ChaumPedersenValidationImpl {  }
    }

    /// Validate a registration request against the store.
    pub fn validate_user_registration(
        &self,
        store: &MapDataAccess,
        user: &UserRegistration,
    ) -> (r: Result<(), ValidationErrors>)
        requires
            store.wf(),
        ensures
            r == spec_validate_registration(*store, user.user@, user.y1@, user.y2@),
    {
        if user.user.as_str().is_empty() {
            return Err(ValidationErrors::InvalidArgument);
        }
        if user.y1.is_zero() {
            return Err(ValidationErrors::InvalidArgument);
        }
        if user.y2.is_zero() {
            return Err(ValidationErrors::InvalidArgument);
        }
        if store.get_user(&user.user).is_some() {
            return Err(ValidationErrors::AlreadyExists);
        }
        Ok(())
    }

    /// Validate a challenge request against the store.
    pub fn validate_user_challenge_request(
        &self,
        store: &MapDataAccess,
        challenge: &UserChallengeRequest,
    ) -> (r: Result<(), ValidationErrors>)
        requires
            store.wf(),
        ensures
            r == spec_validate_challenge(*store, challenge.user@, challenge.r1@, challenge.r2@),
    {
        if challenge.user.as_str().is_empty() {
            return Err(ValidationErrors::InvalidArgument);
        }
        if challenge.r1.is_zero() {
            return Err(ValidationErrors::InvalidArgument);
        }
        if challenge.r2.is_zero() {
            return Err(ValidationErrors::InvalidArgument);
        }
        if store.get_user(&challenge.user).is_none() {
            return Err(ValidationErrors::Unauthenticated);
        }
        Ok(())
    }

    /// Validate a solution attempt against the store.
    pub fn validate_user_solution(
        &self,
        store: &MapDataAccess,
        solution: &UserSolution,
    ) -> (r: Result<(), ValidationErrors>)
        requires
            store.wf(),
        ensures
            r == spec_validate_solution(*store, solution.auth_id@, solution.s@),
    {
        if store.get_challenge(&solution.auth_id).is_none() {
            return Err(ValidationErrors::Unauthenticated);
        }
        if solution.s.is_zero() {
            return Err(ValidationErrors::InvalidArgument);
        }
        Ok(())
    }
}

} // verus!
