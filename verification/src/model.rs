//! The three entity classes the store holds: users, outstanding challenges
//! and sessions, each with its mathematical image.

use vstd::prelude::*;
use crate::num::Num;

verus! {

/// The mathematical image of a stored user.
pub struct UserV {
    pub id: Seq<char>,
    pub y1: nat,
    pub y2: nat,
    pub auth_id: Option<Seq<char>>,
    pub session_id: Option<Seq<char>>,
}

/// A registered user: its identifier, its two public commitments, and
/// references to its outstanding challenge and latest session, if any.
#[derive(Debug)]
pub struct User {
    pub id: String,
    pub y1: Num,
    pub y2: Num,
    pub auth_id: Option<String>,
    pub session_id: Option<String>,
}

impl View for User {
    type V = UserV;

    open spec fn view(&self) -> UserV {
        UserV {
            id: self.id@,
            y1: self.y1@,
            y2: self.y2@,
            auth_id: match self.auth_id {
                Some(a) => Some(a@),
                None => None,
            },
            session_id: match self.session_id {
                Some(s) => Some(s@),
                None => None,
            },
        }
    }
}

/// The mathematical image of a stored challenge.
pub struct ChallengeV {
    pub id: Seq<char>,
    pub c: nat,
    pub r1: nat,
    pub r2: nat,
    pub user_id: Seq<char>,
}

/// An outstanding challenge: its opaque identifier, the verifier's random
/// scalar, the prover's commitments, and the issuing user.
#[derive(Debug)]
pub struct Challenge {
    pub id: String,
    pub c: Num,
    pub r1: Num,
    pub r2: Num,
    pub user_id: String,
}

impl View for Challenge {
    type V = ChallengeV;

    open spec fn view(&self) -> ChallengeV {
        ChallengeV { id: self.id@, c: self.c@, r1: self.r1@, r2: self.r2@, user_id: self.user_id@ }
    }
}

/// The mathematical image of a stored session.
pub struct SessionV {
    pub id: Seq<char>,
    pub user_id: Seq<char>,
}

/// A session minted on successful verification.
#[derive(Debug)]
pub struct Session {
    pub id: String,
    pub user_id: String,
}

impl View for Session {
    type V = SessionV;

    open spec fn view(&self) -> SessionV {
        SessionV { id: self.id@, user_id: self.user_id@ }
    }
}

} // verus!
