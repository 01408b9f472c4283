use lol_draft::record::{reconcile_save, CompletedStore, Model};
use lol_draft::session::{DraftError, Session, TimerStep, GRACE_THRESHOLD, TIMER_INIT};
use lol_draft::turn::Turn;

const SID: u128 = 11;
const BLUE: u128 = 22;
const RED: u128 = 33;

fn ready_session() -> Session {
    let mut s = Session::new(SID, BLUE, RED);
    s.ready(BLUE).unwrap();
    s.ready(RED).unwrap();
    s
}

/// Drive a ready session through every remaining turn by selecting and
/// confirming with whichever team owns the turn.
fn drive_to_post_draft(s: &mut Session) {
    let mut pick: u32 = 100;
    while s.draft.turn != Turn::PostDraft {
        let token = if s.draft.turn.is_blue() { BLUE } else { RED };
        s.select_candidate(token, pick).unwrap();
        s.confirm_turn(token).unwrap();
        pick += 1;
    }
}

#[test]
fn scenario_ready_up_starts_draft() {
    let mut s = Session::new(SID, BLUE, RED);
    assert_eq!(s.draft.turn, Turn::PreDraft);
    assert_eq!(s.ready(BLUE), Ok(()));
    assert!(s.draft.blue_ready);
    assert!(!s.draft.red_ready);
    assert_eq!(s.draft.turn, Turn::PreDraft);
    assert_eq!(s.ready(RED), Ok(()));
    assert!(s.draft.blue_ready && s.draft.red_ready);
    assert_eq!(s.draft.turn, Turn::BlueBan1);
    assert_eq!(s.timer, 30);
}

#[test]
fn scenario_wrong_credential_select_rejected() {
    let mut s = ready_session();
    assert_eq!(s.draft.turn, Turn::BlueBan1);
    let before = s;
    assert_eq!(s.select_candidate(RED, 1), Err(DraftError::InvalidCredential));
    assert_eq!(s, before);
}

#[test]
fn scenario_select_then_confirm() {
    let mut s = ready_session();
    assert_eq!(s.select_candidate(BLUE, 7), Ok(()));
    assert_eq!(s.draft.turn, Turn::BlueBan1);
    assert_eq!(s.confirm_turn(BLUE), Ok(()));
    assert_eq!(s.draft.blue_ban_1, Some(7));
    assert_eq!(s.draft.turn, Turn::RedBan1);
    assert_eq!(s.timer, 30);
}

#[test]
fn scenario_timeout_forces_turn_forward() {
    let mut s = ready_session();
    s.select_candidate(BLUE, 7).unwrap();
    s.confirm_turn(BLUE).unwrap();
    assert_eq!(s.draft.turn, Turn::RedBan1);
    // The timer loop ticks the countdown down through zero and the grace
    // band; only once the value has fallen below the grace threshold does
    // it force the turn forward.
    let mut ticks: i32 = 0;
    loop {
        let timer_before = s.timer;
        match s.timer_tick() {
            TimerStep::Ticked => {
                ticks += 1;
                assert_eq!(s.timer, timer_before - 1);
            }
            TimerStep::Expired => {
                assert_eq!(timer_before, GRACE_THRESHOLD - 1);
                assert_eq!(timer_before, -4);
                break;
            }
            other => panic!("unexpected timer step {:?}", other),
        }
    }
    // 30 down to -4 is one decrement per tick.
    assert_eq!(ticks, 34);
    assert_eq!(s.draft.red_ban_1, None);
    assert_eq!(s.draft.turn, Turn::BlueBan2);
    assert_eq!(s.timer, 30);
}

#[test]
fn scenario_full_draft_completes_once() {
    let mut s = ready_session();
    drive_to_post_draft(&mut s);
    assert_eq!(s.draft.turn, Turn::PostDraft);
    // The timer loop observes the terminal turn and terminates.
    let before = s;
    assert_eq!(s.timer_tick(), TimerStep::Finished);
    assert_eq!(s, before);
    // The completion handoff is idempotent: a second save of the same
    // session conflicts in the store but reconciles to success.
    let mut store = CompletedStore::new();
    let record = Model::completed_record(&s.draft);
    let first = store.save_completed(record);
    assert_eq!(first, Ok(()));
    let second = store.save_completed(record);
    assert_eq!(second, Err(DraftError::PersistenceConflict));
    assert_eq!(reconcile_save(first), Ok(()));
    assert_eq!(reconcile_save(second), Ok(()));
    assert_eq!(store.records.len(), 1);
}

#[test]
fn full_draft_visits_turns_in_order() {
    let mut s = ready_session();
    let mut visited = vec![Turn::PreDraft, s.draft.turn];
    while s.draft.turn != Turn::PostDraft {
        let token = if s.draft.turn.is_blue() { BLUE } else { RED };
        s.select_candidate(token, 1 + visited.len() as u32).unwrap();
        s.confirm_turn(token).unwrap();
        visited.push(s.draft.turn);
    }
    let expected = vec![
        Turn::PreDraft,
        Turn::BlueBan1,
        Turn::RedBan1,
        Turn::BlueBan2,
        Turn::RedBan2,
        Turn::BlueBan3,
        Turn::RedBan3,
        Turn::BluePick1,
        Turn::RedPick1,
        Turn::RedPick2,
        Turn::BluePick2,
        Turn::BluePick3,
        Turn::RedPick3,
        Turn::RedBan4,
        Turn::BlueBan4,
        Turn::RedBan5,
        Turn::BlueBan5,
        Turn::RedPick4,
        Turn::BluePick4,
        Turn::BluePick5,
        Turn::RedPick5,
        Turn::PostDraft,
    ];
    assert_eq!(visited, expected);
}

#[test]
fn confirm_without_selection_rejected() {
    let mut s = ready_session();
    let before = s;
    assert_eq!(s.confirm_turn(BLUE), Err(DraftError::NoSelectionYet));
    assert_eq!(s, before);
}

#[test]
fn selection_is_mutable_until_confirmed() {
    let mut s = ready_session();
    s.select_candidate(BLUE, 7).unwrap();
    assert_eq!(s.draft.current_pick(), Some(7));
    s.select_candidate(BLUE, 9).unwrap();
    assert_eq!(s.draft.current_pick(), Some(9));
    s.confirm_turn(BLUE).unwrap();
    assert_eq!(s.draft.blue_ban_1, Some(9));
}

#[test]
fn ready_is_idempotent_per_team() {
    let mut s = Session::new(SID, BLUE, RED);
    assert_eq!(s.ready(BLUE), Ok(()));
    let before = s;
    assert_eq!(s.ready(BLUE), Ok(()));
    assert_eq!(s, before);
    assert_eq!(s.ready(RED), Ok(()));
    assert_eq!(s.draft.turn, Turn::BlueBan1);
    // A repeated readiness call after the draft started changes nothing:
    // the turn advances out of the initial sentinel exactly once.
    let started = s;
    assert_eq!(s.ready(BLUE), Ok(()));
    assert_eq!(s, started);
}

#[test]
fn ready_with_unknown_credential_rejected() {
    let mut s = Session::new(SID, BLUE, RED);
    let before = s;
    assert_eq!(s.ready(99), Err(DraftError::InvalidCredential));
    assert_eq!(s, before);
}

#[test]
fn no_action_at_sentinel_turns() {
    let mut s = Session::new(SID, BLUE, RED);
    // Before the draft starts nobody owns the turn, not even a participant.
    assert_eq!(s.select_candidate(BLUE, 1), Err(DraftError::InvalidCredential));
    assert_eq!(s.confirm_turn(BLUE), Err(DraftError::InvalidCredential));
    let mut done = ready_session();
    drive_to_post_draft(&mut done);
    assert_eq!(done.select_candidate(RED, 1), Err(DraftError::InvalidCredential));
    assert_eq!(done.confirm_turn(RED), Err(DraftError::InvalidCredential));
}

#[test]
fn timer_waits_until_both_ready() {
    let mut s = Session::new(SID, BLUE, RED);
    assert_eq!(s.timer_tick(), TimerStep::Waiting);
    assert_eq!(s.timer, TIMER_INIT);
    s.ready(BLUE).unwrap();
    assert_eq!(s.timer_tick(), TimerStep::Waiting);
    s.ready(RED).unwrap();
    assert_eq!(s.timer_tick(), TimerStep::Ticked);
    assert_eq!(s.timer, TIMER_INIT - 1);
}
