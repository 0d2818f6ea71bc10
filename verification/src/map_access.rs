//! The in-memory store binding users, outstanding challenges and sessions,
//! with the referential invariants that hold across the three collections.

use vstd::prelude::*;
use crate::assoc::{assoc_map, distinct_keys, lemma_assoc_map_dom, lemma_assoc_map_index,
    lemma_assoc_map_push, lemma_assoc_map_remove, lemma_distinct_keys_push,
    lemma_distinct_keys_replace};
use crate::model::{User, UserV, Challenge, ChallengeV, Session, SessionV};
use crate::num::Num;

verus! {

/// The store: one association list per entity class, each keyed by its
/// identifier.
#[derive(Debug)]
pub struct MapDataAccess {
    /// The registered users, keyed by user identifier.
    pub users: Vec<User>,
    /// The outstanding challenges, keyed by challenge identifier.
    pub challenges: Vec<Challenge>,
    /// The sessions, keyed by session identifier.
    pub session: Vec<Session>,
}

impl MapDataAccess {
    /// The users as an association sequence.
    pub open spec fn users_assoc(&self) -> Seq<(Seq<char>, UserV)> {
        self.users@.map_values(|u: User| (u.id@, u@))
    }

    /// The challenges as an association sequence.
    pub open spec fn challenges_assoc(&self) -> Seq<(Seq<char>, ChallengeV)> {
        self.challenges@.map_values(|c: Challenge| (c.id@, c@))
    }

    /// The sessions as an association sequence.
    pub open spec fn sessions_assoc(&self) -> Seq<(Seq<char>, SessionV)> {
        self.session@.map_values(|s: Session| (s.id@, s@))
    }

    /// The users, as a map from identifier to user.
    pub open spec fn users_map(&self) -> Map<Seq<char>, UserV> {
        assoc_map(self.users_assoc())
    }

    /// The challenges, as a map from identifier to challenge.
    pub open spec fn challenges_map(&self) -> Map<Seq<char>, ChallengeV> {
        assoc_map(self.challenges_assoc())
    }

    /// The sessions, as a map from identifier to session.
    pub open spec fn sessions_map(&self) -> Map<Seq<char>, SessionV> {
        assoc_map(self.sessions_assoc())
    }

    /// Every stored challenge names itself, refers to an existing user, and
    /// is that user's one outstanding challenge.
    pub open spec fn challenge_links_ok(&self) -> bool {
        forall|a: Seq<char>| #[trigger]
            self.challenges_map().contains_key(a) ==> self.challenges_map()[a].id == a
                && self.users_map().contains_key(self.challenges_map()[a].user_id)
                && self.users_map()[self.challenges_map()[a].user_id].auth_id == Some(a)
    }

    /// Every stored user names itself, and its outstanding challenge, if
    /// any, exists and refers back to it.
    pub open spec fn user_links_ok(&self) -> bool {
        forall|u: Seq<char>| #[trigger]
            self.users_map().contains_key(u) ==> self.users_map()[u].id == u && (
            self.users_map()[u].auth_id matches Some(a) ==> self.challenges_map().contains_key(a)
                && self.challenges_map()[a].user_id == u)
    }

    /// Every stored session names itself and refers to an existing user.
    pub open spec fn session_links_ok(&self) -> bool {
        forall|t: Seq<char>| #[trigger]
            self.sessions_map().contains_key(t) ==> self.sessions_map()[t].id == t
                && self.users_map().contains_key(self.sessions_map()[t].user_id)
    }

    /// The store's invariant: identifiers are unique within each class and
    /// the cross-references line up.
    pub open spec fn wf(&self) -> bool {
        &&& distinct_keys(self.users_assoc())
        &&& distinct_keys(self.challenges_assoc())
        &&& distinct_keys(self.sessions_assoc())
        &&& self.challenge_links_ok()
        &&& self.user_links_ok()
        &&& self.session_links_ok()
    }

    /// One outstanding challenge per user: in a well-formed store, two
    /// stored challenges bound to the same user are the same challenge,
    /// and the one challenge is the one the user's own reference names.
    /// Every store operation keeps the store well-formed, so this holds
    /// after any finite sequence of them.
    pub proof fn lemma_one_outstanding_challenge(self, a1: Seq<char>, a2: Seq<char>)
        requires
            self.wf(),
            self.challenges_map().contains_key(a1),
            self.challenges_map().contains_key(a2),
            self.challenges_map()[a1].user_id == self.challenges_map()[a2].user_id,
        ensures
            a1 == a2,
            self.users_map()[self.challenges_map()[a1].user_id].auth_id == Some(a1),
    {
    }

    /// An empty store.
    pub fn new() -> (r: MapDataAccess)
        ensures
            r.wf(),
            r.users_map() == Map::<Seq<char>, UserV>::empty(),
            r.challenges_map() == Map::<Seq<char>, ChallengeV>::empty(),
            r.sessions_map() == Map::<Seq<char>, SessionV>::empty(),
    {
        let r = MapDataAccess { users: Vec::new(), challenges: Vec::new(), session: Vec::new() };
        proof {
            assert(r.users_assoc() =~= Seq::<(Seq<char>, UserV)>::empty());
            assert(r.challenges_assoc() =~= Seq::<(Seq<char>, ChallengeV)>::empty());
            assert(r.sessions_assoc() =~= Seq::<(Seq<char>, SessionV)>::empty());
        }
        r
    }

    /// The position of a registered user in the backing vector.
    fn find_user_index(&self, name: &String) -> (idx: usize)
        requires
            distinct_keys(self.users_assoc()),
            self.users_map().contains_key(name@),
        ensures
            idx < self.users@.len(),
            self.users@[idx as int].id@ == name@,
            self.users@[idx as int]@ == self.users_map()[name@],
    {
        let n = self.users.len();
        let mut i: usize = 0;
        while i < n
            invariant
                i <= n,
                n == self.users.len(),
                distinct_keys(self.users_assoc()),
                self.users_map().contains_key(name@),
                forall|j: int| 0 <= j < i ==> self.users@[j].id@ != name@,
            decreases n - i,
        {
            if self.users[i].id == *name {
                proof {
                    assert(self.users_assoc()[i as int].0 == name@);
                    lemma_assoc_map_index(self.users_assoc(), i as int);
                }
                return i;
            }
            i = i + 1;
        }
        proof {
            lemma_assoc_map_dom(self.users_assoc(), name@);
            let j = choose|j: int| 0 <= j < self.users_assoc().len() && self.users_assoc()[j].0
                == name@;
            assert(self.users@[j].id@ == name@);
            assert(false);
        }
        0
    }

    /// The position of an outstanding challenge in the backing vector.
    fn find_challenge_index(&self, id: &String) -> (idx: usize)
        requires
            distinct_keys(self.challenges_assoc()),
            self.challenges_map().contains_key(id@),
        ensures
            idx < self.challenges@.len(),
            self.challenges@[idx as int].id@ == id@,
            self.challenges@[idx as int]@ == self.challenges_map()[id@],
    {
        let n = self.challenges.len();
        let mut i: usize = 0;
        while i < n
            invariant
                i <= n,
                n == self.challenges.len(),
                distinct_keys(self.challenges_assoc()),
                self.challenges_map().contains_key(id@),
                forall|j: int| 0 <= j < i ==> self.challenges@[j].id@ != id@,
            decreases n - i,
        {
            if self.challenges[i].id == *id {
                proof {
                    assert(self.challenges_assoc()[i as int].0 == id@);
                    lemma_assoc_map_index(self.challenges_assoc(), i as int);
                }
                return i;
            }
            i = i + 1;
        }
        proof {
            lemma_assoc_map_dom(self.challenges_assoc(), id@);
            let j = choose|j: int|
                0 <= j < self.challenges_assoc().len() && self.challenges_assoc()[j].0 == id@;
            assert(self.challenges@[j].id@ == id@);
            assert(false);
        }
        0
    }

    /// Look a user up by identifier.
    pub fn get_user(&self, name: &String) -> (r: Option<&User>)
        requires
            distinct_keys(self.users_assoc()),
        ensures
            match r {
                Some(u) => self.users_map().contains_key(name@) && u@ == self.users_map()[name@],
                None => !self.users_map().contains_key(name@),
            },
    {
        let n = self.users.len();
        let mut i: usize = 0;
        while i < n
            invariant
                i <= n,
                n == self.users.len(),
                distinct_keys(self.users_assoc()),
                forall|j: int| 0 <= j < i ==> self.users@[j].id@ != name@,
            decreases n - i,
        {
            if self.users[i].id == *name {
                proof {
                    assert(self.users_assoc()[i as int].0 == name@);
                    lemma_assoc_map_index(self.users_assoc(), i as int);
                }
                return Some(&self.users[i]);
            }
            i = i + 1;
        }
        proof {
            lemma_assoc_map_dom(self.users_assoc(), name@);
            if self.users_map().contains_key(name@) {
                let j = choose|j: int| 0 <= j < self.users_assoc().len()
                    && self.users_assoc()[j].0 == name@;
                assert(self.users@[j].id@ == name@);
            }
        }
        None
    }

    /// Look a challenge up by identifier.
    pub fn get_challenge(&self, id: &String) -> (r: Option<&Challenge>)
        requires
            distinct_keys(self.challenges_assoc()),
        ensures
            match r {
                Some(c) => self.challenges_map().contains_key(id@) && c@
                    == self.challenges_map()[id@],
                None => !self.challenges_map().contains_key(id@),
            },
    {
        let n = self.challenges.len();
        let mut i: usize = 0;
        while i < n
            invariant
                i <= n,
                n == self.challenges.len(),
                distinct_keys(self.challenges_assoc()),
                forall|j: int| 0 <= j < i ==> self.challenges@[j].id@ != id@,
            decreases n - i,
        {
            if self.challenges[i].id == *id {
                proof {
                    assert(self.challenges_assoc()[i as int].0 == id@);
                    lemma_assoc_map_index(self.challenges_assoc(), i as int);
                }
                return Some(&self.challenges[i]);
            }
            i = i + 1;
        }
        proof {
            lemma_assoc_map_dom(self.challenges_assoc(), id@);
            if self.challenges_map().contains_key(id@) {
                let j = choose|j: int|
                    0 <= j < self.challenges_assoc().len() && self.challenges_assoc()[j].0 == id@;
                assert(self.challenges@[j].id@ == id@);
            }
        }
        None
    }

    /// Insert a fresh user with no outstanding challenge and no session.
    pub fn create_user(&mut self, user_name: &String, y1: &Num, y2: &Num)
        requires
            old(self).wf(),
            !old(self).users_map().contains_key(user_name@),
        ensures
            final(self).wf(),
            final(self).users_map() =~= old(self).users_map().insert(
                user_name@,
                UserV {
                    id: user_name@,
                    y1: y1@,
                    y2: y2@,
                    auth_id: None::<Seq<char>>,
                    session_id: None::<Seq<char>>,
                },
            ),
            final(self).challenges_map() == old(self).challenges_map(),
            final(self).sessions_map() == old(self).sessions_map(),
    {
        let user = User {
            id: user_name.clone(),
            y1: y1.clone(),
            y2: y2.clone(),
            auth_id: None,
            session_id: None,
        };
        let ghost uv = user@;
        self.users.push(user);
        proof {
            assert(self.users_assoc() =~= old(self).users_assoc().push((user_name@, uv)));
            lemma_assoc_map_push(old(self).users_assoc(), user_name@, uv);
            assert(self.challenges_assoc() =~= old(self).challenges_assoc());
            assert(self.sessions_assoc() =~= old(self).sessions_assoc());
            lemma_distinct_keys_push(old(self).users_assoc(), user_name@, uv);
            assert(self.challenge_links_ok()) by {
                assert forall|a: Seq<char>| #[trigger]
                    self.challenges_map().contains_key(a) implies self.challenges_map()[a].id == a
                    && self.users_map().contains_key(self.challenges_map()[a].user_id)
                    && self.users_map()[self.challenges_map()[a].user_id].auth_id == Some(a) by {
                    assert(old(self).challenges_map().contains_key(a));
                    assert(old(self).challenges_map()[a].user_id != user_name@);
                }
            }
            assert(self.user_links_ok()) by {
                assert forall|u: Seq<char>| #[trigger]
                    self.users_map().contains_key(u) implies self.users_map()[u].id == u && (
                    self.users_map()[u].auth_id matches Some(a)
                        ==> self.challenges_map().contains_key(a)
                        && self.challenges_map()[a].user_id == u) by {
                    if u != user_name@ {
                        assert(old(self).users_map().contains_key(u));
                    }
                }
            }
            assert(self.session_links_ok()) by {
                assert forall|t: Seq<char>| #[trigger]
                    self.sessions_map().contains_key(t) implies self.sessions_map()[t].id == t
                    && self.users_map().contains_key(self.sessions_map()[t].user_id) by {
                    assert(old(self).sessions_map().contains_key(t));
                }
            }
        }
    }

    /// Insert a challenge and make it the user's outstanding one.  The
    /// caller has already deleted any prior challenge of the same user.
    pub fn create_auth_challenge(
        &mut self,
        user_id: &String,
        auth_id: &String,
        c: &Num,
        r1: &Num,
        r2: &Num,
    )
        requires
            old(self).wf(),
            old(self).users_map().contains_key(user_id@),
            old(self).users_map()[user_id@].auth_id is None,
            !old(self).challenges_map().contains_key(auth_id@),
        ensures
            final(self).wf(),
            final(self).users_map() =~= old(self).users_map().insert(
                user_id@,
                (UserV { auth_id: Some(auth_id@), ..old(self).users_map()[user_id@] }),
            ),
            final(self).challenges_map() =~= old(self).challenges_map().insert(
                auth_id@,
                (ChallengeV { id: auth_id@, c: c@, r1: r1@, r2: r2@, user_id: user_id@ }),
            ),
            final(self).sessions_map() == old(self).sessions_map(),
    {
        let idx = self.find_user_index(user_id);
        let mut u = self.users.remove(idx);
        u.auth_id = Some(auth_id.clone());
        let ghost uv = u@;
        self.users.push(u);
        let challenge = Challenge {
            id: auth_id.clone(),
            c: c.clone(),
            r1: r1.clone(),
            r2: r2.clone(),
            user_id: user_id.clone(),
        };
        let ghost cv = challenge@;
        self.challenges.push(challenge);
        proof {
            let s0 = old(self).users_assoc();
            let i = idx as int;
            lemma_assoc_map_remove(s0, i);
            assert(self.users_assoc() =~= s0.remove(i).push((user_id@, uv)));
            lemma_assoc_map_push(s0.remove(i), user_id@, uv);
            assert(self.users_map() =~= old(self).users_map().insert(user_id@, uv));
            assert(uv == (UserV { auth_id: Some(auth_id@), ..old(self).users_map()[user_id@] }))
                by {
                lemma_assoc_map_index(s0, i);
            }
            assert(s0[i].0 == user_id@);
            lemma_distinct_keys_replace(s0, i, uv);
            let c0 = old(self).challenges_assoc();
            assert(self.challenges_assoc() =~= c0.push((auth_id@, cv)));
            lemma_assoc_map_push(c0, auth_id@, cv);
            assert(self.sessions_assoc() =~= old(self).sessions_assoc());
            lemma_distinct_keys_push(c0, auth_id@, cv);
            assert(self.challenge_links_ok()) by {
                assert forall|a: Seq<char>| #[trigger]
                    self.challenges_map().contains_key(a) implies self.challenges_map()[a].id == a
                    && self.users_map().contains_key(self.challenges_map()[a].user_id)
                    && self.users_map()[self.challenges_map()[a].user_id].auth_id == Some(a) by {
                    if a != auth_id@ {
                        assert(old(self).challenges_map().contains_key(a));
                        assert(old(self).challenges_map()[a].user_id != user_id@);
                    }
                }
            }
            assert(self.user_links_ok()) by {
                assert forall|w: Seq<char>| #[trigger]
                    self.users_map().contains_key(w) implies self.users_map()[w].id == w && (
                    self.users_map()[w].auth_id matches Some(a)
                        ==> self.challenges_map().contains_key(a)
                        && self.challenges_map()[a].user_id == w) by {
                    if w != user_id@ {
                        assert(old(self).users_map().contains_key(w));
                        match old(self).users_map()[w].auth_id {
                            Some(a) => {
                                assert(old(self).challenges_map().contains_key(a));
                                assert(a != auth_id@);
                            },
                            None => {},
                        }
                    }
                }
            }
            assert(self.session_links_ok()) by {
                assert forall|t: Seq<char>| #[trigger]
                    self.sessions_map().contains_key(t) implies self.sessions_map()[t].id == t
                    && self.users_map().contains_key(self.sessions_map()[t].user_id) by {
                    assert(old(self).sessions_map().contains_key(t));
                }
            }
        }
    }

    /// Remove a challenge and clear the issuing user's outstanding
    /// reference.  The challenge must exist: the surrounding logic
    /// guarantees it.
    pub fn delete_auth_challenge(&mut self, auth_id: &String)
        requires
            old(self).wf(),
            old(self).challenges_map().contains_key(auth_id@),
        ensures
            final(self).wf(),
            final(self).challenges_map() =~= old(self).challenges_map().remove(auth_id@),
            final(self).users_map() =~= old(self).users_map().insert(
                old(self).challenges_map()[auth_id@].user_id,
                (UserV {
                    auth_id: None::<Seq<char>>,
                    ..old(self).users_map()[old(self).challenges_map()[auth_id@].user_id]
                }),
            ),
            final(self).sessions_map() == old(self).sessions_map(),
    {
        let cidx = self.find_challenge_index(auth_id);
        let ch = self.challenges.remove(cidx);
        proof {
            let c0 = old(self).challenges_assoc();
            lemma_assoc_map_remove(c0, cidx as int);
            assert(self.challenges_assoc() =~= c0.remove(cidx as int));
            assert(self.challenges_map() =~= old(self).challenges_map().remove(auth_id@));
            assert(self.users_assoc() =~= old(self).users_assoc());
            assert(ch@ == old(self).challenges_map()[auth_id@]);
        }
        let ghost uid = ch.user_id@;
        let uidx = self.find_user_index(&ch.user_id);
        let mut u = self.users.remove(uidx);
        u.auth_id = None;
        let ghost uv = u@;
        self.users.push(u);
        proof {
            let s0 = old(self).users_assoc();
            let i = uidx as int;
            lemma_assoc_map_remove(s0, i);
            assert(self.users_assoc() =~= s0.remove(i).push((uid, uv)));
            lemma_assoc_map_push(s0.remove(i), uid, uv);
            assert(self.users_map() =~= old(self).users_map().insert(uid, uv));
            assert(uv == (UserV { auth_id: None::<Seq<char>>, ..old(self).users_map()[uid] })) by {
                lemma_assoc_map_index(s0, i);
            }
            assert(s0[i].0 == uid);
            lemma_distinct_keys_replace(s0, i, uv);
            assert(self.sessions_assoc() =~= old(self).sessions_assoc());
            assert(self.challenge_links_ok()) by {
                assert forall|a: Seq<char>| #[trigger]
                    self.challenges_map().contains_key(a) implies self.challenges_map()[a].id == a
                    && self.users_map().contains_key(self.challenges_map()[a].user_id)
                    && self.users_map()[self.challenges_map()[a].user_id].auth_id == Some(a) by {
                    assert(old(self).challenges_map().contains_key(a));
                    assert(a != auth_id@);
                    if old(self).challenges_map()[a].user_id == uid {
                        assert(old(self).users_map()[uid].auth_id == Some(a));
                        assert(old(self).users_map()[uid].auth_id == Some(auth_id@));
                        assert(false);
                    }
                }
            }
            assert(self.user_links_ok()) by {
                assert forall|w: Seq<char>| #[trigger]
                    self.users_map().contains_key(w) implies self.users_map()[w].id == w && (
                    self.users_map()[w].auth_id matches Some(a)
                        ==> self.challenges_map().contains_key(a)
                        && self.challenges_map()[a].user_id == w) by {
                    if w != uid {
                        assert(old(self).users_map().contains_key(w));
                        match old(self).users_map()[w].auth_id {
                            Some(a) => {
                                assert(old(self).challenges_map().contains_key(a));
                                assert(old(self).challenges_map()[a].user_id == w);
                                assert(old(self).challenges_map()[auth_id@].user_id == uid);
                                assert(a != auth_id@);
                            },
                            None => {},
                        }
                    }
                }
            }
            assert(self.session_links_ok()) by {
                assert forall|t: Seq<char>| #[trigger]
                    self.sessions_map().contains_key(t) implies self.sessions_map()[t].id == t
                    && self.users_map().contains_key(self.sessions_map()[t].user_id) by {
                    assert(old(self).sessions_map().contains_key(t));
                }
            }
        }
    }

    /// The position of a session in the backing vector, or its length when
    /// the identifier is unknown.
    fn session_position(&self, id: &String) -> (idx: usize)
        requires
            distinct_keys(self.sessions_assoc()),
        ensures
            idx <= self.session@.len(),
            idx < self.session@.len() ==> self.session@[idx as int].id@ == id@,
            idx == self.session@.len() ==> !self.sessions_map().contains_key(id@),
    {
        let n = self.session.len();
        let mut i: usize = 0;
        while i < n
            invariant
                i <= n,
                n == self.session.len(),
                forall|j: int| 0 <= j < i ==> self.session@[j].id@ != id@,
            decreases n - i,
        {
            if self.session[i].id == *id {
                return i;
            }
            i = i + 1;
        }
        proof {
            lemma_assoc_map_dom(self.sessions_assoc(), id@);
            if self.sessions_map().contains_key(id@) {
                let j = choose|j: int|
                    0 <= j < self.sessions_assoc().len() && self.sessions_assoc()[j].0 == id@;
                assert(self.session@[j].id@ == id@);
            }
        }
        n
    }

    /// Insert a session and record it as the user's most recent one.  A
    /// session already stored under the same identifier is replaced, as a
    /// map insert would replace it.
    pub fn create_session(&mut self, user_id: &String, session_id: &String)
        requires
            old(self).wf(),
            old(self).users_map().contains_key(user_id@),
        ensures
            final(self).wf(),
            final(self).sessions_map() =~= old(self).sessions_map().insert(
                session_id@,
                (SessionV { id: session_id@, user_id: user_id@ }),
            ),
            final(self).users_map() =~= old(self).users_map().insert(
                user_id@,
                (UserV { session_id: Some(session_id@), ..old(self).users_map()[user_id@] }),
            ),
            final(self).challenges_map() == old(self).challenges_map(),
    {
        let pos = self.session_position(session_id);
        let ghost t0 = self.sessions_assoc();
        if pos < self.session.len() {
            self.session.remove(pos);
            proof {
                lemma_assoc_map_remove(t0, pos as int);
                assert(self.sessions_assoc() =~= t0.remove(pos as int));
            }
        }
        proof {
            assert(!self.sessions_map().contains_key(session_id@));
            assert(distinct_keys(self.sessions_assoc()));
            assert(self.users_assoc() =~= old(self).users_assoc());
            assert(self.challenges_assoc() =~= old(self).challenges_assoc());
            assert(self.sessions_map() =~= old(self).sessions_map().remove(session_id@));
        }
        let ghost t1 = self.sessions_assoc();
        let idx = self.find_user_index(user_id);
        let mut u = self.users.remove(idx);
        u.session_id = Some(session_id.clone());
        let ghost uv = u@;
        self.users.push(u);
        let sess = Session { id: session_id.clone(), user_id: user_id.clone() };
        let ghost sv = sess@;
        self.session.push(sess);
        proof {
            let s0 = old(self).users_assoc();
            let i = idx as int;
            lemma_assoc_map_remove(s0, i);
            assert(self.users_assoc() =~= s0.remove(i).push((user_id@, uv)));
            lemma_assoc_map_push(s0.remove(i), user_id@, uv);
            assert(self.users_map() =~= old(self).users_map().insert(user_id@, uv));
            assert(uv == (UserV {
                session_id: Some(session_id@),
                ..old(self).users_map()[user_id@]
            })) by {
                lemma_assoc_map_index(s0, i);
            }
            assert(s0[i].0 == user_id@);
            lemma_distinct_keys_replace(s0, i, uv);
            assert(self.sessions_assoc() =~= t1.push((session_id@, sv)));
            lemma_assoc_map_push(t1, session_id@, sv);
            assert(self.challenges_assoc() =~= old(self).challenges_assoc());
            lemma_distinct_keys_push(t1, session_id@, sv);
            assert(self.challenge_links_ok()) by {
                assert forall|a: Seq<char>| #[trigger]
                    self.challenges_map().contains_key(a) implies self.challenges_map()[a].id == a
                    && self.users_map().contains_key(self.challenges_map()[a].user_id)
                    && self.users_map()[self.challenges_map()[a].user_id].auth_id == Some(a) by {
                    assert(old(self).challenges_map().contains_key(a));
                }
            }
            assert(self.user_links_ok()) by {
                assert forall|w: Seq<char>| #[trigger]
                    self.users_map().contains_key(w) implies self.users_map()[w].id == w && (
                    self.users_map()[w].auth_id matches Some(a)
                        ==> self.challenges_map().contains_key(a)
                        && self.challenges_map()[a].user_id == w) by {
                    if w != user_id@ {
                        assert(old(self).users_map().contains_key(w));
                    }
                }
            }
            assert(self.session_links_ok()) by {
                assert forall|t: Seq<char>| #[trigger]
                    self.sessions_map().contains_key(t) implies self.sessions_map()[t].id == t
                    && self.users_map().contains_key(self.sessions_map()[t].user_id) by {
                    if t != session_id@ {
                        assert(old(self).sessions_map().contains_key(t));
                    }
                }
            }
        }
    }
}

} // verus!
