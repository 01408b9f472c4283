use lol_draft::record::{reconcile_save, CompletedStore, Model};
use lol_draft::registry::SessionRegistry;
use lol_draft::role::Role;
use lol_draft::session::{DraftError, TimerStep};
use lol_draft::turn::Turn;

#[test]
fn create_session_registers_a_fresh_draft() {
    let mut reg = SessionRegistry::new();
    let (sid, blue, red) = reg.create_session().expect("token collision");
    assert_ne!(blue, red);
    assert!(reg.contains(sid));
    let d = reg.get(sid).unwrap();
    assert_eq!(d.draft_id, sid);
    assert_eq!(d.blue_id, blue);
    assert_eq!(d.red_id, red);
    assert_eq!(d.turn, Turn::PreDraft);
    assert!(!d.blue_ready && !d.red_ready);
    assert_eq!(reg.get_timer(sid), Some(30));
}

#[test]
fn unknown_session_reports_not_found() {
    let mut reg = SessionRegistry::new();
    assert!(!reg.contains(7));
    assert_eq!(reg.get(7), None);
    assert_eq!(reg.get_timer(7), None);
    assert_eq!(reg.ready(7, 1), Err(DraftError::NotFound));
    assert_eq!(reg.select_candidate(7, 1, 2), Err(DraftError::NotFound));
    assert_eq!(reg.confirm_turn(7, 1), Err(DraftError::NotFound));
    assert_eq!(reg.timer_tick(7), Err(DraftError::NotFound));
}

#[test]
fn register_session_rejects_a_duplicate_identifier() {
    let mut reg = SessionRegistry::new();
    assert!(reg.register_session(1, 2, 3));
    assert!(!reg.register_session(1, 4, 5));
    assert_eq!(reg.sessions.len(), 1);
}

#[test]
fn actions_through_the_registry_reach_the_session() {
    let mut reg = SessionRegistry::new();
    reg.register_session(1, 2, 3);
    assert_eq!(reg.timer_tick(1), Ok(TimerStep::Waiting));
    assert_eq!(reg.ready(1, 2), Ok(()));
    assert_eq!(reg.ready(1, 3), Ok(()));
    assert_eq!(reg.get(1).unwrap().turn, Turn::BlueBan1);
    assert_eq!(reg.select_candidate(1, 3, 9), Err(DraftError::InvalidCredential));
    assert_eq!(reg.select_candidate(1, 2, 9), Ok(()));
    assert_eq!(reg.confirm_turn(1, 2), Ok(()));
    let d = reg.get(1).unwrap();
    assert_eq!(d.blue_ban_1, Some(9));
    assert_eq!(d.turn, Turn::RedBan1);
    assert_eq!(reg.timer_tick(1), Ok(TimerStep::Ticked));
    assert_eq!(reg.get_timer(1), Some(29));
}

#[test]
fn sessions_are_independent() {
    let mut reg = SessionRegistry::new();
    reg.register_session(1, 2, 3);
    reg.register_session(10, 20, 30);
    reg.ready(1, 2).unwrap();
    reg.ready(1, 3).unwrap();
    let other = reg.get(10).unwrap();
    assert_eq!(other.turn, Turn::PreDraft);
    assert!(!other.blue_ready && !other.red_ready);
}

#[test]
fn record_flattens_the_draft() {
    let mut reg = SessionRegistry::new();
    reg.register_session(1, 2, 3);
    reg.ready(1, 2).unwrap();
    reg.ready(1, 3).unwrap();
    reg.select_candidate(1, 2, 77).unwrap();
    reg.confirm_turn(1, 2).unwrap();
    let d = reg.get(1).unwrap();
    let m = Model::from_draft(&d, 1700000000);
    assert_eq!(m.draft_id, 1);
    assert_eq!(m.blue_ban_1, Some(77));
    assert_eq!(m.red_ban_1, None);
    assert_eq!(m.date_completed, 1700000000);
    assert_eq!(m.get_pick(&Turn::BlueBan1), Some(77));
    assert_eq!(m.get_pick(&Turn::PostDraft), None);
}

#[test]
fn store_lookup_finds_saved_records() {
    let mut store = CompletedStore::new();
    let d = lol_draft::draft::Draft::new(5, 6, 7);
    let m = Model::from_draft(&d, 123);
    assert_eq!(store.get(5), None);
    assert_eq!(store.save_completed(m), Ok(()));
    let found = store.get(5).unwrap();
    assert_eq!(found, m);
    assert_eq!(store.get(6), None);
}

#[test]
fn reconcile_passes_real_failures_through() {
    assert_eq!(reconcile_save(Ok(())), Ok(()));
    assert_eq!(reconcile_save(Err(DraftError::PersistenceConflict)), Ok(()));
    assert_eq!(reconcile_save(Err(DraftError::NotFound)), Err(DraftError::NotFound));
}

#[test]
fn role_default_is_the_wildcard() {
    assert_eq!(Role::default(), Role::All);
    assert!(Role::All.is_all());
    assert!(!Role::Top.is_all());
}
