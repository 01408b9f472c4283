//! Session-level laws: the step relation that covers every engine
//! transition, and the properties that hold along any run of a session.

use vstd::prelude::*;
use crate::draft::{lemma_advance_spec, lemma_select_spec};
use crate::session::Session;
use crate::turn::{lemma_turn_sequence, Turn};

verus! {

/// One engine transition on a session: a client call — a readiness call, a
/// selection or a confirm, by any credential whatever — or one pass of the
/// session's timer loop, or the timer loop's force-advance, which fires
/// only once both teams are ready.
pub open spec fn step(s1: Session, s2: Session) -> bool {
    ||| exists|token: u128| s2 == #[trigger] s1.ready_spec(token)
    ||| exists|token: u128, pick: u32| s2 == #[trigger] s1.select_spec(token, pick)
    ||| exists|token: u128| s2 == #[trigger] s1.confirm_spec(token)
    ||| (s1.draft.blue_ready && s1.draft.red_ready && s2 == s1.force_advance_spec())
    ||| s2 == s1.tick_spec()
}

/// A run of a session: every pair of consecutive states is one engine
/// transition.
pub open spec fn run(tr: Seq<Session>) -> bool {
    forall|k: int| 0 <= k < tr.len() - 1 ==> step(#[trigger] tr[k], tr[k + 1])
}

/// The turn only ever moves forward through the fixed order: a step leaves
/// it in place or advances it to its successor, so with the sequencer's own
/// laws the turn visits the fixed order with no skips, no repeats and no
/// rewinding.
pub proof fn lemma_step_turn_advances(s1: Session, s2: Session)
    requires
        step(s1, s2),
    ensures
        s2.draft.turn == s1.draft.turn || s2.draft.turn == s1.draft.turn.next_spec(),
        s1.draft.turn.index_spec() <= s2.draft.turn.index_spec(),
{
    lemma_turn_sequence(s1.draft.turn);
    if exists|token: u128| s2 == #[trigger] s1.ready_spec(token) {
        let token = choose|token: u128| s2 == s1.ready_spec(token);
        assert(s2 == s1.ready_spec(token));
    } else if exists|token: u128, pick: u32| s2 == #[trigger] s1.select_spec(token, pick) {
        let (token, pick) = choose|token: u128, pick: u32| s2 == s1.select_spec(token, pick);
        lemma_select_spec(s1.draft, pick);
    } else {
    }
}

/// Readiness is monotone: once a team's flag is true, no step makes it
/// false again.
pub proof fn lemma_step_readiness_monotone(s1: Session, s2: Session)
    requires
        step(s1, s2),
    ensures
        s1.draft.blue_ready ==> s2.draft.blue_ready,
        s1.draft.red_ready ==> s2.draft.red_ready,
{
    if exists|token: u128| s2 == #[trigger] s1.ready_spec(token) {
        let token = choose|token: u128| s2 == s1.ready_spec(token);
        assert(s2 == s1.ready_spec(token));
    } else if exists|token: u128, pick: u32| s2 == #[trigger] s1.select_spec(token, pick) {
        let (token, pick) = choose|token: u128, pick: u32| s2 == s1.select_spec(token, pick);
        lemma_select_spec(s1.draft, pick);
    } else {
    }
}

/// At most one slot is writable at any instant, and it is the slot owned
/// by the current turn: no step changes any other slot, and while the turn
/// sits at a sentinel no step changes any slot at all.
pub proof fn lemma_step_writes_current_slot_only(s1: Session, s2: Session)
    requires
        step(s1, s2),
    ensures
        forall|t: Turn| t != s1.draft.turn ==> s2.draft.pick_at(t) == s1.draft.pick_at(t),
        s1.draft.turn.is_sentinel_spec() ==> forall|t: Turn|
            s2.draft.pick_at(t) == s1.draft.pick_at(t),
{
    lemma_advance_spec(s1.draft);
    if exists|token: u128| s2 == #[trigger] s1.ready_spec(token) {
        let token = choose|token: u128| s2 == s1.ready_spec(token);
        assert(s2 == s1.ready_spec(token));
        match s1.draft.team_of_spec(token) {
            None => {},
            Some(team) => {
                let readied = s1.ready_spec(token).draft;
                lemma_advance_spec(
                    if team == crate::turn::Team::Blue {
                        crate::draft::Draft { blue_ready: true, ..s1.draft }
                    } else {
                        crate::draft::Draft { red_ready: true, ..s1.draft }
                    },
                );
            },
        }
    } else if exists|token: u128, pick: u32| s2 == #[trigger] s1.select_spec(token, pick) {
        let (token, pick) = choose|token: u128, pick: u32| s2 == s1.select_spec(token, pick);
        lemma_select_spec(s1.draft, pick);
    } else {
    }
}

/// Over any run the turn never rewinds: a later observation of a session
/// never sits at an earlier position of the fixed order. With
/// `lemma_step_turn_advances` this pins every run to the fixed 22-state
/// order, with no skips and no repeats other than the terminal self-loop.
pub proof fn lemma_run_turn_never_rewinds(tr: Seq<Session>, k1: int, k2: int)
    requires
        run(tr),
        0 <= k1 <= k2 < tr.len(),
    ensures
        tr[k1].draft.turn.index_spec() <= tr[k2].draft.turn.index_spec(),
    decreases k2 - k1,
{
    if k1 < k2 {
        assert(step(tr[k2 - 1], tr[k2]));
        lemma_step_turn_advances(tr[k2 - 1], tr[k2]);
        lemma_run_turn_never_rewinds(tr, k1, k2 - 1);
    }
}

/// Over any run readiness is monotone: once a team is observed ready, no
/// later observation of that session shows it unready.
pub proof fn lemma_run_readiness_monotone(tr: Seq<Session>, k1: int, k2: int)
    requires
        run(tr),
        0 <= k1 <= k2 < tr.len(),
    ensures
        tr[k1].draft.blue_ready ==> tr[k2].draft.blue_ready,
        tr[k1].draft.red_ready ==> tr[k2].draft.red_ready,
    decreases k2 - k1,
{
    if k1 < k2 {
        assert(step(tr[k2 - 1], tr[k2]));
        lemma_step_readiness_monotone(tr[k2 - 1], tr[k2]);
        lemma_run_readiness_monotone(tr, k1, k2 - 1);
    }
}

/// The slot of an elapsed turn is frozen: one step neither changes its
/// content nor brings that turn back.
pub proof fn lemma_step_elapsed_slot_frozen(s1: Session, s2: Session, t: Turn)
    requires
        step(s1, s2),
        t.index_spec() < s1.draft.turn.index_spec(),
    ensures
        s2.draft.pick_at(t) == s1.draft.pick_at(t),
        t.index_spec() < s2.draft.turn.index_spec(),
{
    lemma_step_writes_current_slot_only(s1, s2);
    lemma_step_turn_advances(s1, s2);
}

/// Along any run, the slot of an already-elapsed turn that is unset stays
/// unset to the end of the run.
pub proof fn lemma_run_elapsed_slot_unset(tr: Seq<Session>, t: Turn)
    requires
        tr.len() >= 1,
        run(tr),
        t.index_spec() < tr[0].draft.turn.index_spec(),
        tr[0].draft.pick_at(t) is None,
    ensures
        tr[tr.len() - 1].draft.pick_at(t) is None,
        t.index_spec() < tr[tr.len() - 1].draft.turn.index_spec(),
    decreases tr.len(),
{
    if tr.len() > 1 {
        assert(step(tr[0], tr[1]));
        lemma_step_elapsed_slot_frozen(tr[0], tr[1], t);
        let tail = tr.subrange(1, tr.len() as int);
        assert forall|k: int| 0 <= k < tail.len() - 1 implies step(#[trigger] tail[k], tail[k + 1]) by {
            assert(step(tr[k + 1], tr[k + 2]));
        }
        lemma_run_elapsed_slot_unset(tail, t);
        assert(tail[tail.len() - 1] == tr[tr.len() - 1]);
    }
}

/// A force-advance that fires while the current slot is unset leaves that
/// slot permanently unset: however the session runs on afterwards, no
/// action — a later confirm included — can retroactively fill it.
pub proof fn lemma_forced_slot_stays_unset(s: Session, tr: Seq<Session>, t: Turn)
    requires
        t == s.draft.turn,
        t != Turn::PostDraft,
        s.draft.pick_at(t) is None,
        tr.len() >= 1,
        tr[0] == s.force_advance_spec(),
        run(tr),
    ensures
        tr[tr.len() - 1].draft.pick_at(t) is None,
{
    lemma_advance_spec(s.draft);
    lemma_turn_sequence(t);
    lemma_run_elapsed_slot_unset(tr, t);
}

} // verus!
