//! The orchestrator of the three-round protocol: it validates requests,
//! draws challenges, binds them to users, and promotes a verified
//! challenge to a session.

use vstd::prelude::*;
use vstd::arithmetic::power2::pow2;
use crate::algorithm::{ChaumPedersenAlgorthim, spec_verify};
use crate::map_access::MapDataAccess;
use crate::model::{UserV, ChallengeV, SessionV};
use crate::chaum_pedersen_model::{Parameters, UserRegistration, UserChallengeRequest,
    UserChallengeResponse, UserSolution, SessionResponse, ValidationErrors};
use crate::chaum_pedersen_validation::{ChaumPedersenValidationImpl, spec_validate_registration,
    spec_validate_challenge, spec_validate_solution};

verus! {

/// The lower-case hyphenated rendering of a 128-bit identifier: 36
/// characters, hex digits in groups of 8-4-4-4-12 separated by hyphens.
pub open spec fn is_identifier_rendering(s: Seq<char>) -> bool {
    &&& s.len() == 36
    &&& forall|i: int|
        0 <= i < 36 ==> (if i == 8 || i == 13 || i == 18 || i == 23 {
            s[i] == '-'
        } else {
            ('0' <= #[trigger] s[i] <= '9') || ('a' <= s[i] <= 'f')
        })
}

/// Relies on `uuid::Uuid::new_v4` and its display form: a fresh random
/// 128-bit identifier rendered as lower-case hyphenated hex in groups of
/// 8-4-4-4-12.  Nothing relates two draws; each call may return any
/// identifier of that shape.  It can abort only if the operating system's
/// entropy source fails, an environmental failure no precondition can
/// exclude.
#[verifier::external_body]
fn new_identifier() -> (r: String)
    ensures
        is_identifier_rendering(r@),
{
    uuid::Uuid::new_v4().to_string()
}

/// The logic layer: the engine, the store, and the request validator.
#[derive(Debug)]
pub struct ChaumPedersenLogicImpl {
    /// The cryptographic engine.
    pub algorithm: ChaumPedersenAlgorthim,
    /// The entity store.
    pub data_access: MapDataAccess,
    /// The request validator.
    pub validation: ChaumPedersenValidationImpl,
}

/// Whether the solution `s` satisfies the verifier's predicate against the
/// stored challenge named `auth_id` and the commitments of its user.
pub open spec fn spec_solution_verifies(
    l: ChaumPedersenLogicImpl,
    auth_id: Seq<char>,
    s: nat,
) -> bool
    recommends
        l.data_access.challenges_map().contains_key(auth_id),
{
    let ch = l.data_access.challenges_map()[auth_id];
    let u = l.data_access.users_map()[ch.user_id];
    spec_verify(
        l.algorithm.parameters.p@,
        l.algorithm.parameters.g@,
        l.algorithm.parameters.h@,
        u.y1,
        u.y2,
        ch.r1,
        ch.r2,
        s,
        ch.c,
    )
}

/// What a successful challenge issuance leaves behind: a fresh identifier
/// bound to the user, the user's prior challenge superseded, and a scalar
/// in `[2, 2^bit_size)`.  When the drawn identifier did not collide with a
/// stored one (every draw, in practice), the two maps are pinned exactly.
pub open spec fn challenge_ok_post(
    o: ChaumPedersenLogicImpl,
    n: ChaumPedersenLogicImpl,
    user: Seq<char>,
    r1: nat,
    r2: nat,
    auth_id: Seq<char>,
    c: nat,
) -> bool {
    let u = o.data_access.users_map()[user];
    let newch = ChallengeV { id: auth_id, c: c, r1: r1, r2: r2, user_id: user };
    let base = match u.auth_id {
        Some(a0) => o.data_access.challenges_map().remove(a0),
        None => o.data_access.challenges_map(),
    };
    &&& is_identifier_rendering(auth_id)
    &&& 2 <= c < pow2(o.algorithm.parameters.bit_size as nat)
    &&& n.data_access.users_map().contains_key(user)
    &&& n.data_access.users_map()[user] == (UserV { auth_id: Some(auth_id), ..u })
    &&& n.data_access.challenges_map().contains_key(auth_id)
    &&& n.data_access.challenges_map()[auth_id] == newch
    &&& n.data_access.sessions_map() == o.data_access.sessions_map()
    &&& (!o.data_access.challenges_map().contains_key(auth_id) ==> (
        n.data_access.users_map() =~= o.data_access.users_map().insert(
            user,
            (UserV { auth_id: Some(auth_id), ..u }),
        ) && n.data_access.challenges_map() =~= base.insert(auth_id, newch)))
}

/// What a successful solution leaves behind: the challenge is gone, the
/// user holds a new session reference, and the session is stored.  When
/// the drawn session identifier did not collide with a stored one (every
/// draw, in practice), the session map is pinned exactly.
pub open spec fn solve_ok_post(
    o: ChaumPedersenLogicImpl,
    n: ChaumPedersenLogicImpl,
    auth_id: Seq<char>,
    session_id: Seq<char>,
) -> bool {
    let ch = o.data_access.challenges_map()[auth_id];
    let u = o.data_access.users_map()[ch.user_id];
    &&& is_identifier_rendering(session_id)
    &&& n.data_access.challenges_map() =~= o.data_access.challenges_map().remove(auth_id)
    &&& n.data_access.users_map() =~= o.data_access.users_map().insert(
        ch.user_id,
        (UserV {
            auth_id: None::<Seq<char>>,
            session_id: Some(session_id),
            ..u
        }),
    )
    &&& n.data_access.sessions_map().contains_key(session_id)
    &&& n.data_access.sessions_map()[session_id] == (SessionV {
        id: session_id,
        user_id: ch.user_id,
    })
    &&& (!o.data_access.sessions_map().contains_key(session_id)
        ==> n.data_access.sessions_map() =~= o.data_access.sessions_map().insert(
        session_id,
        (SessionV { id: session_id, user_id: ch.user_id }),
    ))
}

/// Challenge binding: whenever solving the challenge named `auth_id`
/// returned a session, that challenge is no longer retrievable from the
/// store.
pub proof fn lemma_challenge_consumed(
    o: ChaumPedersenLogicImpl,
    n: ChaumPedersenLogicImpl,
    auth_id: Seq<char>,
    session_id: Seq<char>,
)
    requires
        solve_ok_post(o, n, auth_id, session_id),
    ensures
        !n.data_access.challenges_map().contains_key(auth_id),
{
}

impl ChaumPedersenLogicImpl {
    /// The logic is well-formed when its engine and its store are.
    pub open spec fn wf(&self) -> bool {
        &&& self.algorithm.wf()
        &&& self.data_access.wf()
    }

    /// Assemble the logic layer from its three components.
    pub fn new(
        algorithm: ChaumPedersenAlgorthim,
        data_access: MapDataAccess,
        validation: ChaumPedersenValidationImpl,
    ) -> (r: ChaumPedersenLogicImpl)
        requires
            algorithm.wf(),
            data_access.wf(),
        ensures
            r.wf(),
            r.algorithm == algorithm,
            r.data_access == data_access,
    {
        ChaumPedersenLogicImpl { algorithm, data_access, validation }
    }

    /// A snapshot of the engine's parameters.
    pub fn get_parameters(&self) -> (r: Result<Parameters, ValidationErrors>)
        ensures
            r matches Ok(ps) && ps.p@ == self.algorithm.parameters.p@ && ps.q@
                == self.algorithm.parameters.q@ && ps.g@ == self.algorithm.parameters.g@ && ps.h@
                == self.algorithm.parameters.h@ && ps.bit_size == self.algorithm.parameters.bit_size,
    {
        let parameters = self.algorithm.get_parameters();
        Ok(
            Parameters {
                p: parameters.p.clone(),
                q: parameters.q.clone(),
                g: parameters.g.clone(),
                h: parameters.h.clone(),
                bit_size: parameters.bit_size,
            },
        )
    }

    /// Register a user: validate the request, then store the user with its
    /// commitments and no outstanding challenge or session.
    pub fn register_user(&mut self, user: &UserRegistration) -> (r: Result<(), ValidationErrors>)
        requires
            old(self).wf(),
        ensures
            final(self).wf(),
            final(self).algorithm == old(self).algorithm,
            spec_validate_registration(old(self).data_access, user.user@, user.y1@, user.y2@)
                matches Err(e) ==> r == Err::<(), ValidationErrors>(e) && *final(self) == *old(self),
            spec_validate_registration(old(self).data_access, user.user@, user.y1@, user.y2@)
                is Ok ==> r is Ok && final(self).data_access.users_map() =~= old(
                self,
            ).data_access.users_map().insert(
                user.user@,
                (UserV {
                    id: user.user@,
                    y1: user.y1@,
                    y2: user.y2@,
                    auth_id: None::<Seq<char>>,
                    session_id: None::<Seq<char>>,
                }),
            ) && final(self).data_access.challenges_map() == old(
                self,
            ).data_access.challenges_map() && final(self).data_access.sessions_map() == old(
                self,
            ).data_access.sessions_map(),
    {
        match self.validation.validate_user_registration(&self.data_access, user) {
            Err(e) => {
                return Err(e);
            },
            Ok(()) => {},
        }
        self.data_access.create_user(&user.user, &user.y1, &user.y2);
        Ok(())
    }

    /// Issue a challenge: validate the request, draw the scalar, mint a
    /// fresh identifier, supersede the user's prior challenge if one is
    /// outstanding, and store the new one.
    pub fn authentication_challenge(&mut self, challenge: &UserChallengeRequest) -> (r: Result<
        UserChallengeResponse,
        ValidationErrors,
    >)
        requires
            old(self).wf(),
        ensures
            final(self).wf(),
            final(self).algorithm.parameters == old(self).algorithm.parameters,
            spec_validate_challenge(
                old(self).data_access,
                challenge.user@,
                challenge.r1@,
                challenge.r2@,
            ) matches Err(e) ==> r == Err::<UserChallengeResponse, ValidationErrors>(e)
                && *final(self) == *old(self),
            spec_validate_challenge(
                old(self).data_access,
                challenge.user@,
                challenge.r1@,
                challenge.r2@,
            ) is Ok ==> (r matches Ok(resp) && challenge_ok_post(
                *old(self),
                *final(self),
                challenge.user@,
                challenge.r1@,
                challenge.r2@,
                resp.auth_id@,
                resp.c@,
            )),
    {
        match self.validation.validate_user_challenge_request(&self.data_access, challenge) {
            Err(e) => {
                return Err(e);
            },
            Ok(()) => {},
        }
        let c = self.algorithm.generate_random();
        let auth_id = new_identifier();
        // A collision of the drawn identifier with a stored challenge has
        // vanishing probability; if it happens, the colliding challenge is
        // superseded, as a map insert would have replaced it.
        if self.data_access.get_challenge(&auth_id).is_some() {
            self.data_access.delete_auth_challenge(&auth_id);
        }
        let prior: Option<String> = match self.data_access.get_user(&challenge.user) {
            Some(u) => match &u.auth_id {
                Some(a) => Some(a.clone()),
                None => None,
            },
            None => None,
        };
        match &prior {
            Some(a0) => {
                self.data_access.delete_auth_challenge(a0);
            },
            None => {},
        }
        self.data_access.create_auth_challenge(
            &challenge.user,
            &auth_id,
            &c,
            &challenge.r1,
            &challenge.r2,
        );
        Ok(UserChallengeResponse { auth_id, c })
    }

    /// Verify a solution: validate the request, evaluate the verifier's
    /// predicate against the stored challenge and its user's commitments;
    /// on success mint a session and consume the challenge; on failure
    /// leave the challenge intact so the client may retry.
    pub fn solve_challenge(&mut self, solution: &UserSolution) -> (r: Result<
        SessionResponse,
        ValidationErrors,
    >)
        requires
            old(self).wf(),
        ensures
            final(self).wf(),
            final(self).algorithm == old(self).algorithm,
            spec_validate_solution(old(self).data_access, solution.auth_id@, solution.s@)
                matches Err(e) ==> r == Err::<SessionResponse, ValidationErrors>(e)
                && *final(self) == *old(self),
            spec_validate_solution(old(self).data_access, solution.auth_id@, solution.s@) is Ok
                && !spec_solution_verifies(*old(self), solution.auth_id@, solution.s@) ==> r
                == Err::<SessionResponse, ValidationErrors>(ValidationErrors::Unauthenticated)
                && *final(self) == *old(self),
            spec_validate_solution(old(self).data_access, solution.auth_id@, solution.s@) is Ok
                && spec_solution_verifies(*old(self), solution.auth_id@, solution.s@) ==> (r
                matches Ok(resp) && solve_ok_post(
                *old(self),
                *final(self),
                solution.auth_id@,
                resp.session_id@,
            )),
    {
        match self.validation.validate_user_solution(&self.data_access, solution) {
            Err(e) => {
                return Err(e);
            },
            Ok(()) => {},
        }
        let (user_id, ch_c, ch_r1, ch_r2) = match self.data_access.get_challenge(
            &solution.auth_id,
        ) {
            Some(ch) => (ch.user_id.clone(), ch.c.clone(), ch.r1.clone(), ch.r2.clone()),
            None => {
                proof {
                    assert(false);
                }
                return Err(ValidationErrors::Unauthenticated);
            },
        };
        let (y1, y2) = match self.data_access.get_user(&user_id) {
            Some(u) => (u.y1.clone(), u.y2.clone()),
            None => {
                proof {
                    assert(false);
                }
                return Err(ValidationErrors::Unauthenticated);
            },
        };
        let result = self.algorithm.verify(&y1, &y2, &ch_r1, &ch_r2, &solution.s, &ch_c);
        if !result {
            return Err(ValidationErrors::Unauthenticated);
        }
        let session_id = new_identifier();
        self.data_access.create_session(&user_id, &session_id);
        self.data_access.delete_auth_challenge(&solution.auth_id);
        Ok(SessionResponse { session_id })
    }
}

} // verus!
