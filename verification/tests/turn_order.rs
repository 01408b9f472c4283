use lol_draft::draft::Draft;
use lol_draft::turn::{Team, Turn, TurnKind};

#[test]
fn next_walks_the_fixed_order() {
    let expected = [
        Turn::PreDraft,
        Turn::BlueBan1,
        Turn::RedBan1,
        Turn::BlueBan2,
        Turn::RedBan2,
        Turn::BlueBan3,
        Turn::RedBan3,
        Turn::BluePick1,
        Turn::RedPick1,
        Turn::RedPick2,
        Turn::BluePick2,
        Turn::BluePick3,
        Turn::RedPick3,
        Turn::RedBan4,
        Turn::BlueBan4,
        Turn::RedBan5,
        Turn::BlueBan5,
        Turn::RedPick4,
        Turn::BluePick4,
        Turn::BluePick5,
        Turn::RedPick5,
        Turn::PostDraft,
    ];
    let mut t = Turn::PreDraft;
    let mut walked = vec![t];
    for _ in 0..21 {
        t = t.next();
        walked.push(t);
    }
    assert_eq!(walked.as_slice(), expected.as_slice());
}

#[test]
fn post_draft_is_absorbing() {
    assert_eq!(Turn::PostDraft.next(), Turn::PostDraft);
}

#[test]
fn owner_kind_and_predicates() {
    assert!(Turn::BlueBan3.is_ban());
    assert!(Turn::BlueBan3.is_blue());
    assert!(!Turn::BlueBan3.is_red());
    assert_eq!(Turn::BlueBan3.owner(), Some(Team::Blue));
    assert_eq!(Turn::BlueBan3.kind(), Some(TurnKind::Ban));

    assert!(!Turn::RedPick2.is_ban());
    assert!(Turn::RedPick2.is_red());
    assert!(!Turn::RedPick2.is_blue());
    assert_eq!(Turn::RedPick2.owner(), Some(Team::Red));
    assert_eq!(Turn::RedPick2.kind(), Some(TurnKind::Pick));

    assert!(!Turn::PreDraft.is_ban());
    assert!(!Turn::PreDraft.is_blue());
    assert!(!Turn::PreDraft.is_red());
    assert_eq!(Turn::PreDraft.owner(), None);
    assert_eq!(Turn::PreDraft.kind(), None);
    assert!(Turn::PreDraft.is_pre_draft());
    assert!(Turn::PreDraft.is_sentinel());
    assert!(Turn::PostDraft.is_post_draft());
    assert!(Turn::PostDraft.is_sentinel());
    assert!(!Turn::BlueBan1.is_sentinel());
}

#[test]
fn chosen_excludes_the_current_slot_only() {
    let mut d = Draft::new(1, 2, 3);
    d.turn = Turn::BlueBan1;
    d.select_pick(5);
    assert_eq!(d.blue_ban_1, Some(5));
    // The speculative value in the active turn's own slot never counts as
    // chosen against itself.
    assert!(!d.is_champ_chosen(5));
    d.next_turn();
    // Once the turn has elapsed the committed value is excluded.
    assert!(d.is_champ_chosen(5));
    assert!(!d.is_champ_chosen(6));
}

#[test]
fn get_pick_reads_the_turns_slot() {
    let mut d = Draft::new(1, 2, 3);
    assert_eq!(d.get_pick(&Turn::RedPick3), None);
    d.red_pick_3 = Some(42);
    assert_eq!(d.get_pick(&Turn::RedPick3), Some(42));
    assert_eq!(d.get_pick(&Turn::PreDraft), None);
    assert_eq!(d.get_pick(&Turn::PostDraft), None);
    d.turn = Turn::RedPick3;
    assert_eq!(d.current_pick(), Some(42));
}

#[test]
fn team_resolution_from_credentials() {
    let d = Draft::new(1, 2, 3);
    assert_eq!(d.team_of(2), Some(Team::Blue));
    assert_eq!(d.team_of(3), Some(Team::Red));
    // Any other caller is a spectator.
    assert_eq!(d.team_of(4), None);
    let mut d2 = d;
    d2.turn = Turn::BlueBan1;
    assert!(d2.owns_turn(2));
    assert!(!d2.owns_turn(3));
    assert!(!d2.owns_turn(4));
}
