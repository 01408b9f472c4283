//! Process-wide table of active sessions, keyed by session identifier: the
//! attachment point through which client actions and each session's timer
//! loop reach the same session state.

use vstd::prelude::*;
use crate::draft::Draft;
use crate::session::{DraftError, Session, TimerStep};

verus! {

/// Generates one participant or session token.
///
/// Relies on `uuid::Uuid::new_v4`: a freshly generated random version-4
/// identifier, read out as its 128-bit value. The value depends on the
/// process's randomness source, so nothing is promised of it.
#[verifier::external_body]
fn fresh_token() -> (r: u128) {
    uuid::Uuid::new_v4().as_u128()
}

/// The table of live sessions. Identifiers are pairwise distinct, so a
/// session identifier names at most one session.
pub struct SessionRegistry {
    pub sessions: Vec<Session>,
}

impl SessionRegistry {
    /// Every held session is well formed and no identifier repeats.
    pub open spec fn wf(self) -> bool {
        &&& forall|i: int, j: int|
            0 <= i < j < self.sessions@.len() ==> (#[trigger] self.sessions@[i]).draft.draft_id
                != (#[trigger] self.sessions@[j]).draft.draft_id
        &&& forall|i: int| 0 <= i < self.sessions@.len() ==> (#[trigger] self.sessions@[i]).wf()
    }

    /// Whether some live session carries this identifier.
    pub open spec fn has_session(self, sid: u128) -> bool {
        exists|i: int|
            0 <= i < self.sessions@.len() && (#[trigger] self.sessions@[i]).draft.draft_id == sid
    }

    /// The position of the session carrying this identifier; meaningful
    /// only when `has_session` holds, and then unique by well-formedness.
    pub open spec fn index_of(self, sid: u128) -> int {
        choose|i: int|
            0 <= i < self.sessions@.len() && (#[trigger] self.sessions@[i]).draft.draft_id == sid
    }

    /// The session carrying this identifier; meaningful only when
    /// `has_session` holds.
    pub open spec fn session_spec(self, sid: u128) -> Session {
        self.sessions@[self.index_of(sid)]
    }

    /// An empty registry.
    pub fn new() -> (r: SessionRegistry)
        ensures
            r.wf(),
            r.sessions@.len() == 0,
    {
        SessionRegistry { sessions: Vec::new() }
    }

    /// The position of the session with this identifier, if it is live.
    fn find(&self, sid: u128) -> (r: Option<usize>)
        requires
            self.wf(),
        ensures
            match r {
                Some(i) => {
                    &&& i < self.sessions@.len()
                    &&& self.sessions@[i as int].draft.draft_id == sid
                    &&& self.has_session(sid)
                    &&& self.index_of(sid) == i
                },
                None => !self.has_session(sid),
            },
    {
        let mut i: usize = 0;
        while i < self.sessions.len()
            invariant
                self.wf(),
                i <= self.sessions@.len(),
                forall|j: int| 0 <= j < i ==> (#[trigger] self.sessions@[j]).draft.draft_id != sid,
            decreases self.sessions@.len() - i,
        {
            if self.sessions[i].draft.draft_id == sid {
                proof {
                    assert(self.has_session(sid));
                    let k = self.index_of(sid);
                    assert(0 <= k < self.sessions@.len() && self.sessions@[k].draft.draft_id
                        == sid);
                    if k != i {
                        assert(self.sessions@[k].draft.draft_id
                            != self.sessions@[i as int].draft.draft_id);
                    }
                }
                return Some(i);
            }
            i = i + 1;
        }
        None
    }

    /// Whether a session referenced externally, for instance through a
    /// link, is still live.
    pub fn contains(&self, sid: u128) -> (r: bool)
        requires
            self.wf(),
        ensures
            r == self.has_session(sid),
    {
        self.find(sid).is_some()
    }

    /// Read access to a live session's draft state.
    pub fn get(&self, sid: u128) -> (r: Option<Draft>)
        requires
            self.wf(),
        ensures
            match r {
                Some(d) => self.has_session(sid) && d == self.session_spec(sid).draft,
                None => !self.has_session(sid),
            },
    {
        match self.find(sid) {
            Some(i) => Some(self.sessions[i].draft),
            None => None,
        }
    }

    /// Read access to a live session's countdown.
    pub fn get_timer(&self, sid: u128) -> (r: Option<i32>)
        requires
            self.wf(),
        ensures
            match r {
                Some(t) => self.has_session(sid) && t == self.session_spec(sid).timer,
                None => !self.has_session(sid),
            },
    {
        match self.find(sid) {
            Some(i) => Some(self.sessions[i].timer),
            None => None,
        }
    }

    /// Register a new session under the given identifiers. Succeeds, and
    /// appends the fresh session, exactly when the identifier is not in use
    /// yet; otherwise the registry is untouched.
    pub fn register_session(&mut self, draft_id: u128, blue_id: u128, red_id: u128) -> (r: bool)
        requires
            old(self).wf(),
            blue_id != red_id,
        ensures
            final(self).wf(),
            r == !old(self).has_session(draft_id),
            r ==> final(self).sessions@ == old(self).sessions@.push(
                Session::fresh_spec(draft_id, blue_id, red_id),
            ),
            r ==> final(self).has_session(draft_id),
            !r ==> *final(self) == *old(self),
    {
        match self.find(draft_id) {
            Some(_) => false,
            None => {
                let s = Session::new(draft_id, blue_id, red_id);
                self.sessions.push(s);
                proof {
                    let n = self.sessions@.len() - 1;
                    assert(self.sessions@[n].draft.draft_id == draft_id);
                    assert forall|i: int, j: int|
                        0 <= i < j < self.sessions@.len() implies (
                    #[trigger] self.sessions@[i]).draft.draft_id != (
                    #[trigger] self.sessions@[j]).draft.draft_id by {
                        if j == n {
                            assert(old(self).sessions@[i].draft.draft_id != draft_id);
                        }
                    }
                }
                true
            },
        }
    }

    /// Allocate a new draft: a session identifier and one credential per
    /// team, all freshly generated. Returns `(session, blue, red)` and
    /// starts the session at the initial sentinel with a full countdown.
    /// In the astronomically unlikely event that the generated tokens
    /// collide with each other or with a live session, nothing is
    /// registered and `None` is returned.
    pub fn create_session(&mut self) -> (r: Option<(u128, u128, u128)>)
        requires
            old(self).wf(),
        ensures
            final(self).wf(),
            match r {
                Some(ids) => {
                    &&& ids.1 != ids.2
                    &&& !old(self).has_session(ids.0)
                    &&& final(self).sessions@ == old(self).sessions@.push(
                        Session::fresh_spec(ids.0, ids.1, ids.2),
                    )
                    &&& final(self).has_session(ids.0)
                },
                None => *final(self) == *old(self),
            },
    {
        let draft_id = fresh_token();
        let blue_id = fresh_token();
        let red_id = fresh_token();
        if blue_id == red_id {
            return None;
        }
        if self.register_session(draft_id, blue_id, red_id) {
            Some((draft_id, blue_id, red_id))
        } else {
            None
        }
    }

    /// Mark the caller's team ready in the named session.
    pub fn ready(&mut self, sid: u128, token: u128) -> (r: Result<(), DraftError>)
        requires
            old(self).wf(),
        ensures
            final(self).wf(),
            !old(self).has_session(sid) ==> r == Err::<(), DraftError>(DraftError::NotFound)
                && *final(self) == *old(self),
            old(self).has_session(sid) ==> {
                &&& r == old(self).session_spec(sid).ready_result_spec(token)
                &&& final(self).sessions@ == old(self).sessions@.update(
                    old(self).index_of(sid),
                    old(self).session_spec(sid).ready_spec(token),
                )
            },
    {
        match self.find(sid) {
            None => Err(DraftError::NotFound),
            Some(i) => {
                proof {
                    assert(self.sessions@[i as int].wf());
                }
                let mut s = self.sessions[i];
                let r = s.ready(token);
                self.sessions[i] = s;
                proof {
                    crate::session::lemma_actions_preserve_identity(
                        old(self).session_spec(sid),
                        token,
                        0,
                    );
                    lemma_wf_after_update(*old(self), *self, i as int, s);
                }
                r
            },
        }
    }

    /// Write a candidate into the current turn's slot of the named session.
    pub fn select_candidate(&mut self, sid: u128, token: u128, pick: u32) -> (r: Result<
        (),
        DraftError,
    >)
        requires
            old(self).wf(),
        ensures
            final(self).wf(),
            !old(self).has_session(sid) ==> r == Err::<(), DraftError>(DraftError::NotFound)
                && *final(self) == *old(self),
            old(self).has_session(sid) ==> {
                &&& r == old(self).session_spec(sid).select_result_spec(token)
                &&& final(self).sessions@ == old(self).sessions@.update(
                    old(self).index_of(sid),
                    old(self).session_spec(sid).select_spec(token, pick),
                )
            },
    {
        match self.find(sid) {
            None => Err(DraftError::NotFound),
            Some(i) => {
                proof {
                    assert(self.sessions@[i as int].wf());
                }
                let mut s = self.sessions[i];
                let r = s.select_candidate(token, pick);
                self.sessions[i] = s;
                proof {
                    crate::session::lemma_actions_preserve_identity(
                        old(self).session_spec(sid),
                        token,
                        pick,
                    );
                    lemma_wf_after_update(*old(self), *self, i as int, s);
                }
                r
            },
        }
    }

    /// Commit the current turn of the named session.
    pub fn confirm_turn(&mut self, sid: u128, token: u128) -> (r: Result<(), DraftError>)
        requires
            old(self).wf(),
        ensures
            final(self).wf(),
            !old(self).has_session(sid) ==> r == Err::<(), DraftError>(DraftError::NotFound)
                && *final(self) == *old(self),
            old(self).has_session(sid) ==> {
                &&& r == old(self).session_spec(sid).confirm_result_spec(token)
                &&& final(self).sessions@ == old(self).sessions@.update(
                    old(self).index_of(sid),
                    old(self).session_spec(sid).confirm_spec(token),
                )
            },
    {
        match self.find(sid) {
            None => Err(DraftError::NotFound),
            Some(i) => {
                proof {
                    assert(self.sessions@[i as int].wf());
                }
                let mut s = self.sessions[i];
                let r = s.confirm_turn(token);
                self.sessions[i] = s;
                proof {
                    crate::session::lemma_actions_preserve_identity(
                        old(self).session_spec(sid),
                        token,
                        0,
                    );
                    lemma_wf_after_update(*old(self), *self, i as int, s);
                }
                r
            },
        }
    }

    /// One pass of the named session's timer loop.
    pub fn timer_tick(&mut self, sid: u128) -> (r: Result<TimerStep, DraftError>)
        requires
            old(self).wf(),
        ensures
            final(self).wf(),
            !old(self).has_session(sid) ==> r == Err::<TimerStep, DraftError>(DraftError::NotFound)
                && *final(self) == *old(self),
            old(self).has_session(sid) ==> {
                &&& r == Ok::<TimerStep, DraftError>(old(self).session_spec(sid).tick_step_spec())
                &&& final(self).sessions@ == old(self).sessions@.update(
                    old(self).index_of(sid),
                    old(self).session_spec(sid).tick_spec(),
                )
            },
    {
        match self.find(sid) {
            None => Err(DraftError::NotFound),
            Some(i) => {
                proof {
                    assert(self.sessions@[i as int].wf());
                }
                let mut s = self.sessions[i];
                let step = s.timer_tick();
                self.sessions[i] = s;
                proof {
                    crate::session::lemma_actions_preserve_identity(
                        old(self).session_spec(sid),
                        0,
                        0,
                    );
                    lemma_wf_after_update(*old(self), *self, i as int, s);
                }
                Ok(step)
            },
        }
    }
}

/// Replacing one session by a well-formed session under the same identifier
/// keeps the registry well formed.
proof fn lemma_wf_after_update(r0: SessionRegistry, r1: SessionRegistry, i: int, s: Session)
    requires
        r0.wf(),
        0 <= i < r0.sessions@.len(),
        r1.sessions@ == r0.sessions@.update(i, s),
        s.wf(),
        s.draft.draft_id == r0.sessions@[i].draft.draft_id,
    ensures
        r1.wf(),
{
    assert forall|a: int, b: int| 0 <= a < b < r1.sessions@.len() implies (
    #[trigger] r1.sessions@[a]).draft.draft_id != (#[trigger] r1.sessions@[b]).draft.draft_id by {
        assert(r0.sessions@[a].draft.draft_id != r0.sessions@[b].draft.draft_id);
    }
    assert forall|a: int| 0 <= a < r1.sessions@.len() implies (#[trigger] r1.sessions@[a]).wf() by {
        assert(r0.sessions@[a].wf());
    }
}

} // verus!
