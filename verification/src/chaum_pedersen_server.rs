//! The service facade: it decodes magnitude-only big-endian byte strings
//! into integers, invokes the logic layer, and encodes the results back,
//! so that a transport can sit directly on top of it.

use vstd::prelude::*;
use crate::num::{Num, be_value, canonical};
use crate::chaum_pedersen_logic::{ChaumPedersenLogicImpl, challenge_ok_post, solve_ok_post,
    spec_solution_verifies};
use crate::chaum_pedersen_model::{UserRegistration, UserChallengeRequest, UserSolution,
    ValidationErrors};
use crate::chaum_pedersen_validation::{spec_validate_registration, spec_validate_challenge,
    spec_validate_solution};
use crate::model::UserV;

verus! {

/// The wire shape of the parameters response.
#[derive(Debug)]
pub struct AuthenticationParametersResponse {
    pub p: Vec<u8>,
    pub q: Vec<u8>,
    pub g: Vec<u8>,
    pub h: Vec<u8>,
    pub bit_size: u32,
}

/// The wire shape of a registration request.
#[derive(Debug)]
pub struct RegisterRequest {
    pub user: String,
    pub y1: Vec<u8>,
    pub y2: Vec<u8>,
}

/// The wire shape of a challenge request.
#[derive(Debug)]
pub struct AuthenticationChallengeRequest {
    pub user: String,
    pub r1: Vec<u8>,
    pub r2: Vec<u8>,
}

/// The wire shape of an issued challenge.
#[derive(Debug)]
pub struct AuthenticationChallengeResponse {
    pub auth_id: String,
    pub c: Vec<u8>,
}

/// The wire shape of a solution attempt.
#[derive(Debug)]
pub struct AuthenticationAnswerRequest {
    pub auth_id: String,
    pub s: Vec<u8>,
}

/// The wire shape of a minted session.
#[derive(Debug)]
pub struct AuthenticationAnswerResponse {
    pub session_id: String,
}

/// The byte-level service around the logic layer.
#[derive(Debug)]
pub struct CPAuthServer {
    /// The logic layer the facade translates for.
    pub logic: ChaumPedersenLogicImpl,
}

impl CPAuthServer {
    /// The facade is well-formed when its logic layer is.
    pub open spec fn wf(&self) -> bool {
        self.logic.wf()
    }

    /// Wrap a logic layer.
    pub fn new(logic: ChaumPedersenLogicImpl) -> (r: CPAuthServer)
        requires
            logic.wf(),
        ensures
            r.wf(),
            r.logic == logic,
    {
        CPAuthServer { logic }
    }

    /// Encode the public parameters as canonical big-endian byte strings.
    pub fn get_authentication_parameters(&self) -> (r: Result<
        AuthenticationParametersResponse,
        ValidationErrors,
    >)
        ensures
            r matches Ok(resp) && be_value(resp.p@) == self.logic.algorithm.parameters.p@
                && be_value(resp.q@) == self.logic.algorithm.parameters.q@ && be_value(resp.g@)
                == self.logic.algorithm.parameters.g@ && be_value(resp.h@)
                == self.logic.algorithm.parameters.h@ && canonical(resp.p@) && canonical(resp.q@)
                && canonical(resp.g@) && canonical(resp.h@) && resp.bit_size
                == self.logic.algorithm.parameters.bit_size as u32,
    {
        let parameters = match self.logic.get_parameters() {
            Ok(ps) => ps,
            Err(e) => {
                proof {
                    assert(false);
                }
                return Err(e);
            },
        };
        Ok(
            AuthenticationParametersResponse {
                p: parameters.p.to_bytes_be(),
                q: parameters.q.to_bytes_be(),
                g: parameters.g.to_bytes_be(),
                h: parameters.h.to_bytes_be(),
                bit_size: parameters.bit_size as u32,
            },
        )
    }

    /// Decode and register a user.
    pub fn register(&mut self, request: &RegisterRequest) -> (r: Result<(), ValidationErrors>)
        requires
            old(self).wf(),
        ensures
            final(self).wf(),
            final(self).logic.algorithm == old(self).logic.algorithm,
            spec_validate_registration(
                old(self).logic.data_access,
                request.user@,
                be_value(request.y1@),
                be_value(request.y2@),
            ) matches Err(e) ==> r == Err::<(), ValidationErrors>(e) && *final(self) == *old(self),
            spec_validate_registration(
                old(self).logic.data_access,
                request.user@,
                be_value(request.y1@),
                be_value(request.y2@),
            ) is Ok ==> r is Ok && final(self).logic.data_access.users_map() =~= old(
                self,
            ).logic.data_access.users_map().insert(
                request.user@,
                (UserV {
                    id: request.user@,
                    y1: be_value(request.y1@),
                    y2: be_value(request.y2@),
                    auth_id: None::<Seq<char>>,
                    session_id: None::<Seq<char>>,
                }),
            ) && final(self).logic.data_access.challenges_map() == old(
                self,
            ).logic.data_access.challenges_map() && final(self).logic.data_access.sessions_map()
                == old(self).logic.data_access.sessions_map(),
    {
        let registration = UserRegistration {
            user: request.user.clone(),
            y1: Num::from_bytes_ref(&request.y1),
            y2: Num::from_bytes_ref(&request.y2),
        };
        self.logic.register_user(&registration)
    }

    /// Decode a challenge request, issue the challenge, and encode the
    /// scalar.
    pub fn create_authentication_challenge(
        &mut self,
        request: &AuthenticationChallengeRequest,
    ) -> (r: Result<AuthenticationChallengeResponse, ValidationErrors>)
        requires
            old(self).wf(),
        ensures
            final(self).wf(),
            final(self).logic.algorithm.parameters == old(self).logic.algorithm.parameters,
            spec_validate_challenge(
                old(self).logic.data_access,
                request.user@,
                be_value(request.r1@),
                be_value(request.r2@),
            ) matches Err(e) ==> r == Err::<AuthenticationChallengeResponse, ValidationErrors>(e)
                && *final(self) == *old(self),
            spec_validate_challenge(
                old(self).logic.data_access,
                request.user@,
                be_value(request.r1@),
                be_value(request.r2@),
            ) is Ok ==> (r matches Ok(resp) && canonical(resp.c@) && challenge_ok_post(
                old(self).logic,
                final(self).logic,
                request.user@,
                be_value(request.r1@),
                be_value(request.r2@),
                resp.auth_id@,
                be_value(resp.c@),
            )),
    {
        let challenge = UserChallengeRequest {
            user: request.user.clone(),
            r1: Num::from_bytes_ref(&request.r1),
            r2: Num::from_bytes_ref(&request.r2),
        };
        match self.logic.authentication_challenge(&challenge) {
            Ok(resp) => Ok(
                AuthenticationChallengeResponse {
                    c: resp.c.to_bytes_be(),
                    auth_id: resp.auth_id,
                },
            ),
            Err(e) => Err(e),
        }
    }

    /// Decode a solution attempt, verify it, and hand back the session
    /// identifier minted on success.
    pub fn verify_authentication(&mut self, request: &AuthenticationAnswerRequest) -> (r: Result<
        AuthenticationAnswerResponse,
        ValidationErrors,
    >)
        requires
            old(self).wf(),
        ensures
            final(self).wf(),
            final(self).logic.algorithm == old(self).logic.algorithm,
            spec_validate_solution(
                old(self).logic.data_access,
                request.auth_id@,
                be_value(request.s@),
            ) matches Err(e) ==> r == Err::<AuthenticationAnswerResponse, ValidationErrors>(e)
                && *final(self) == *old(self),
            spec_validate_solution(
                old(self).logic.data_access,
                request.auth_id@,
                be_value(request.s@),
            ) is Ok && !spec_solution_verifies(
                old(self).logic,
                request.auth_id@,
                be_value(request.s@),
            ) ==> r == Err::<AuthenticationAnswerResponse, ValidationErrors>(
                ValidationErrors::Unauthenticated,
            ) && *final(self) == *old(self),
            spec_validate_solution(
                old(self).logic.data_access,
                request.auth_id@,
                be_value(request.s@),
            ) is Ok && spec_solution_verifies(
                old(self).logic,
                request.auth_id@,
                be_value(request.s@),
            ) ==> (r matches Ok(resp) && solve_ok_post(
                old(self).logic,
                final(self).logic,
                request.auth_id@,
                resp.session_id@,
            )),
    {
        let solution = UserSolution {
            auth_id: request.auth_id.clone(),
            s: Num::from_bytes_ref(&request.s),
        };
        match self.logic.solve_challenge(&solution) {
            Ok(resp) => Ok(AuthenticationAnswerResponse { session_id: resp.session_id }),
            Err(e) => Err(e),
        }
    }
}

} // verus!
