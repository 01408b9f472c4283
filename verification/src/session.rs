//! One draft session: its state, its countdown, and the guarded actions
//! that clients and the timer loop perform against it.

use vstd::prelude::*;
use crate::draft::Draft;
use crate::turn::{Team, Turn};

verus! {

/// Countdown value a turn starts with, in whole time units.
pub const TIMER_INIT: i32 = 30;

/// The countdown may fall this far below zero before the engine
/// force-advances the turn; the slack gives in-flight confirms a few
/// seconds of grace after the nominal expiry.
pub const GRACE_THRESHOLD: i32 = -3;

/// The caller-visible failures of the engine.
#[derive(Clone, Copy, Debug, PartialEq, Eq, Structural)]
pub enum DraftError {
    /// The caller's credential does not match the acting team or the owner
    /// of the current turn; the operation is rejected and nothing changes.
    InvalidCredential,
    /// A confirm arrived while the current turn's slot is still unset;
    /// retryable after selecting.
    NoSelectionYet,
    /// No live session carries the given identifier.
    NotFound,
    /// A completed draft was saved more than once; the engine's caller
    /// treats this as success.
    PersistenceConflict,
}

/// What one pass of the timer loop decided.
#[derive(Clone, Copy, Debug, PartialEq, Eq, Structural)]
pub enum TimerStep {
    /// At least one team is not ready yet; keep waiting for readiness.
    Waiting,
    /// The draft reached the terminal turn; the loop terminates.
    Finished,
    /// The countdown fell below the grace threshold; the turn was forced
    /// forward and the countdown reset.
    Expired,
    /// The countdown was decremented by one; sleep a time unit and repeat.
    Ticked,
}

/// One active draft: the session state and its countdown, created together
/// and retired together.
#[derive(Clone, Copy, Debug, PartialEq, Eq)]
pub struct Session {
    pub draft: Draft,
    pub timer: i32,
}

impl Session {
    /// Credentials are distinct and the countdown stays inside the band the
    /// timer loop can produce.
    pub open spec fn wf(self) -> bool {
        &&& self.draft.wf()
        &&& GRACE_THRESHOLD - 1 <= self.timer <= TIMER_INIT
    }

    /// The session after a readiness call: an unknown credential changes
    /// nothing; otherwise that team's flag is set, and the one time both
    /// flags are true while the turn is still at the initial sentinel the
    /// turn advances once and the countdown restarts.
    pub open spec fn ready_spec(self, token: u128) -> Session {
        match self.draft.team_of_spec(token) {
            None => self,
            Some(team) => {
                let readied = if team == Team::Blue {
                    Draft { blue_ready: true, ..self.draft }
                } else {
                    Draft { red_ready: true, ..self.draft }
                };
                if readied.blue_ready && readied.red_ready && readied.turn == Turn::PreDraft {
                    Session { draft: readied.advance_spec(), timer: TIMER_INIT }
                } else {
                    Session { draft: readied, ..self }
                }
            },
        }
    }

    /// What a readiness call reports: rejected exactly when the credential
    /// matches neither team.
    pub open spec fn ready_result_spec(self, token: u128) -> Result<(), DraftError> {
        if self.draft.team_of_spec(token) is None {
            Err(DraftError::InvalidCredential)
        } else {
            Ok(())
        }
    }

    /// The session after a selection: rejected unless the credential owns
    /// the current turn; otherwise the current slot takes the candidate and
    /// nothing else moves, the countdown included.
    pub open spec fn select_spec(self, token: u128, pick: u32) -> Session {
        if self.draft.owns_turn_spec(token) {
            Session { draft: self.draft.select_spec(pick), ..self }
        } else {
            self
        }
    }

    /// What a selection reports: rejected exactly when the credential does
    /// not own the current turn (at a sentinel turn nobody owns it).
    pub open spec fn select_result_spec(self, token: u128) -> Result<(), DraftError> {
        if self.draft.owns_turn_spec(token) {
            Ok(())
        } else {
            Err(DraftError::InvalidCredential)
        }
    }

    /// The session after a confirm: on success the turn advances one
    /// position and the countdown restarts; on either failure nothing
    /// changes.
    pub open spec fn confirm_spec(self, token: u128) -> Session {
        if self.draft.owns_turn_spec(token) && self.draft.pick_at(self.draft.turn) is Some {
            Session { draft: self.draft.advance_spec(), timer: TIMER_INIT }
        } else {
            self
        }
    }

    /// What a confirm reports: the credential must own the current turn,
    /// and the current slot must already hold a selection.
    pub open spec fn confirm_result_spec(self, token: u128) -> Result<(), DraftError> {
        if !self.draft.owns_turn_spec(token) {
            Err(DraftError::InvalidCredential)
        } else if self.draft.pick_at(self.draft.turn) is None {
            Err(DraftError::NoSelectionYet)
        } else {
            Ok(())
        }
    }

    /// The session after the timer loop forces the turn forward: the turn
    /// advances whether or not the current slot is set, and the countdown
    /// restarts.
    pub open spec fn force_advance_spec(self) -> Session {
        Session { draft: self.draft.advance_spec(), timer: TIMER_INIT }
    }

    /// The session after one pass of the timer loop.
    pub open spec fn tick_spec(self) -> Session {
        if !(self.draft.blue_ready && self.draft.red_ready) {
            self
        } else if self.draft.turn == Turn::PostDraft {
            self
        } else if self.timer < GRACE_THRESHOLD {
            self.force_advance_spec()
        } else {
            Session { timer: (self.timer - 1) as i32, ..self }
        }
    }

    /// What one pass of the timer loop decided.
    pub open spec fn tick_step_spec(self) -> TimerStep {
        if !(self.draft.blue_ready && self.draft.red_ready) {
            TimerStep::Waiting
        } else if self.draft.turn == Turn::PostDraft {
            TimerStep::Finished
        } else if self.timer < GRACE_THRESHOLD {
            TimerStep::Expired
        } else {
            TimerStep::Ticked
        }
    }

    /// The fresh session under the given identities: an empty draft at the
    /// initial sentinel and a full countdown.
    pub open spec fn fresh_spec(draft_id: u128, blue_id: u128, red_id: u128) -> Session {
        Session { draft: Draft::empty_spec(draft_id, blue_id, red_id), timer: TIMER_INIT }
    }

    /// A fresh session: an empty draft at the initial sentinel and a full
    /// countdown.
    pub fn new(draft_id: u128, blue_id: u128, red_id: u128) -> (r: Session)
        requires
            blue_id != red_id,
        ensures
            r == Session::fresh_spec(draft_id, blue_id, red_id),
            r.wf(),
            r.draft.draft_id == draft_id,
            r.draft.blue_id == blue_id,
            r.draft.red_id == red_id,
            !r.draft.blue_ready,
            !r.draft.red_ready,
            r.draft.turn == Turn::PreDraft,
            forall|t: Turn| r.draft.pick_at(t) is None,
            r.timer == TIMER_INIT,
    {
        Session { draft: Draft::new(draft_id, blue_id, red_id), timer: TIMER_INIT }
    }

    /// Mark the caller's team ready. Rejected with `InvalidCredential` when
    /// the credential matches neither team; idempotent per team; the one
    /// call that makes both teams ready advances the turn out of the
    /// initial sentinel and restarts the countdown.
    pub fn ready(&mut self, token: u128) -> (r: Result<(), DraftError>)
        requires
            old(self).wf(),
        ensures
            final(self).wf(),
            *final(self) == old(self).ready_spec(token),
            r == old(self).ready_result_spec(token),
    {
        match self.draft.team_of(token) {
            None => Err(DraftError::InvalidCredential),
            Some(Team::Blue) => {
                self.draft.blue_ready = true;
                if self.draft.red_ready && self.draft.turn.is_pre_draft() {
                    self.draft.next_turn();
                    self.timer = TIMER_INIT;
                }
                Ok(())
            },
            Some(Team::Red) => {
                self.draft.red_ready = true;
                if self.draft.blue_ready && self.draft.turn.is_pre_draft() {
                    self.draft.next_turn();
                    self.timer = TIMER_INIT;
                }
                Ok(())
            },
        }
    }

    /// Write the candidate into the slot owned by the current turn,
    /// overwriting any prior speculative value there. Rejected with
    /// `InvalidCredential`, and the state left untouched, unless the
    /// credential owns the current turn. Does not advance the turn.
    pub fn select_candidate(&mut self, token: u128, pick: u32) -> (r: Result<(), DraftError>)
        requires
            old(self).wf(),
        ensures
            final(self).wf(),
            *final(self) == old(self).select_spec(token, pick),
            r == old(self).select_result_spec(token),
    {
        if !self.draft.owns_turn(token) {
            return Err(DraftError::InvalidCredential);
        }
        self.draft.select_pick(pick);
        Ok(())
    }

    /// Commit the current turn: rejected like a selection when the
    /// credential does not own the turn, rejected with `NoSelectionYet`
    /// while the current slot is unset, and otherwise advances the turn and
    /// restarts the countdown.
    pub fn confirm_turn(&mut self, token: u128) -> (r: Result<(), DraftError>)
        requires
            old(self).wf(),
        ensures
            final(self).wf(),
            *final(self) == old(self).confirm_spec(token),
            r == old(self).confirm_result_spec(token),
    {
        if !self.draft.owns_turn(token) {
            return Err(DraftError::InvalidCredential);
        }
        if self.draft.current_pick().is_none() {
            return Err(DraftError::NoSelectionYet);
        }
        self.draft.next_turn();
        self.timer = TIMER_INIT;
        Ok(())
    }

    /// Force the turn forward after the countdown ran out, leaving the
    /// current slot exactly as it is — unset if no selection was made. Only
    /// the timer loop calls this, and only once both teams are ready.
    pub fn force_advance(&mut self)
        requires
            old(self).wf(),
            old(self).draft.blue_ready,
            old(self).draft.red_ready,
        ensures
            final(self).wf(),
            *final(self) == old(self).force_advance_spec(),
    {
        self.draft.next_turn();
        self.timer = TIMER_INIT;
    }

    /// One pass of the timer loop: wait while a team is not ready, stop at
    /// the terminal turn, force the turn forward once the countdown falls
    /// below the grace threshold, and otherwise count down by one.
    pub fn timer_tick(&mut self) -> (r: TimerStep)
        requires
            old(self).wf(),
        ensures
            final(self).wf(),
            *final(self) == old(self).tick_spec(),
            r == old(self).tick_step_spec(),
    {
        if !(self.draft.blue_ready && self.draft.red_ready) {
            return TimerStep::Waiting;
        }
        if self.draft.turn.is_post_draft() {
            return TimerStep::Finished;
        }
        if self.timer < GRACE_THRESHOLD {
            self.force_advance();
            return TimerStep::Expired;
        }
        self.timer = self.timer - 1;
        TimerStep::Ticked
    }
}

/// A session's identities are created once and immutable: no engine
/// transition moves the session identifier or either credential.
pub proof fn lemma_actions_preserve_identity(s: Session, token: u128, pick: u32)
    ensures
        s.ready_spec(token).draft.draft_id == s.draft.draft_id,
        s.ready_spec(token).draft.blue_id == s.draft.blue_id,
        s.ready_spec(token).draft.red_id == s.draft.red_id,
        s.select_spec(token, pick).draft.draft_id == s.draft.draft_id,
        s.select_spec(token, pick).draft.blue_id == s.draft.blue_id,
        s.select_spec(token, pick).draft.red_id == s.draft.red_id,
        s.confirm_spec(token).draft.draft_id == s.draft.draft_id,
        s.confirm_spec(token).draft.blue_id == s.draft.blue_id,
        s.confirm_spec(token).draft.red_id == s.draft.red_id,
        s.force_advance_spec().draft.draft_id == s.draft.draft_id,
        s.force_advance_spec().draft.blue_id == s.draft.blue_id,
        s.force_advance_spec().draft.red_id == s.draft.red_id,
        s.tick_spec().draft.draft_id == s.draft.draft_id,
        s.tick_spec().draft.blue_id == s.draft.blue_id,
        s.tick_spec().draft.red_id == s.draft.red_id,
{
    crate::draft::lemma_select_spec(s.draft, pick);
}

} // verus!
