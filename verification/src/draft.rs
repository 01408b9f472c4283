//! Per-session draft state: identities, readiness flags, the twenty selection
//! slots, and the current turn.

use vstd::prelude::*;
use crate::turn::{Team, Turn};

verus! {

/// The mutable record of one draft. Each of the twenty slots belongs to
/// exactly one non-sentinel turn and holds either nothing or a catalog
/// identifier. `turn` is the sole driver of which slot, if any, is writable.
#[derive(Clone, Copy, Debug, PartialEq, Eq)]
pub struct Draft {
    pub draft_id: u128,
    pub blue_id: u128,
    pub red_id: u128,

    pub blue_ready: bool,
    pub red_ready: bool,

    pub blue_ban_1: Option<u32>,
    pub blue_ban_2: Option<u32>,
    pub blue_ban_3: Option<u32>,
    pub blue_ban_4: Option<u32>,
    pub blue_ban_5: Option<u32>,

    pub red_ban_1: Option<u32>,
    pub red_ban_2: Option<u32>,
    pub red_ban_3: Option<u32>,
    pub red_ban_4: Option<u32>,
    pub red_ban_5: Option<u32>,

    pub blue_pick_1: Option<u32>,
    pub blue_pick_2: Option<u32>,
    pub blue_pick_3: Option<u32>,
    pub blue_pick_4: Option<u32>,
    pub blue_pick_5: Option<u32>,

    pub red_pick_1: Option<u32>,
    pub red_pick_2: Option<u32>,
    pub red_pick_3: Option<u32>,
    pub red_pick_4: Option<u32>,
    pub red_pick_5: Option<u32>,

    pub turn: Turn,
}

impl Draft {
    /// The two participant credentials are distinct, so a caller proves
    /// membership in at most one team.
    pub open spec fn wf(self) -> bool {
        self.blue_id != self.red_id
    }

    /// The slot owned by the given turn; the sentinels own no slot.
    pub open spec fn pick_at(self, turn: Turn) -> Option<u32> {
        match turn {
            Turn::PreDraft => None,
            Turn::BlueBan1 => self.blue_ban_1,
            Turn::BlueBan2 => self.blue_ban_2,
            Turn::BlueBan3 => self.blue_ban_3,
            Turn::BlueBan4 => self.blue_ban_4,
            Turn::BlueBan5 => self.blue_ban_5,
            Turn::RedBan1 => self.red_ban_1,
            Turn::RedBan2 => self.red_ban_2,
            Turn::RedBan3 => self.red_ban_3,
            Turn::RedBan4 => self.red_ban_4,
            Turn::RedBan5 => self.red_ban_5,
            Turn::BluePick1 => self.blue_pick_1,
            Turn::BluePick2 => self.blue_pick_2,
            Turn::BluePick3 => self.blue_pick_3,
            Turn::BluePick4 => self.blue_pick_4,
            Turn::BluePick5 => self.blue_pick_5,
            Turn::RedPick1 => self.red_pick_1,
            Turn::RedPick2 => self.red_pick_2,
            Turn::RedPick3 => self.red_pick_3,
            Turn::RedPick4 => self.red_pick_4,
            Turn::RedPick5 => self.red_pick_5,
            Turn::PostDraft => None,
        }
    }

    /// The state after writing `pick` into the slot owned by the current
    /// turn; at a sentinel turn nothing is writable and nothing changes.
    pub open spec fn select_spec(self, pick: u32) -> Draft {
        match self.turn {
            Turn::PreDraft => self,
            Turn::BlueBan1 => Draft { blue_ban_1: Some(pick), ..self },
            Turn::BlueBan2 => Draft { blue_ban_2: Some(pick), ..self },
            Turn::BlueBan3 => Draft { blue_ban_3: Some(pick), ..self },
            Turn::BlueBan4 => Draft { blue_ban_4: Some(pick), ..self },
            Turn::BlueBan5 => Draft { blue_ban_5: Some(pick), ..self },
            Turn::RedBan1 => Draft { red_ban_1: Some(pick), ..self },
            Turn::RedBan2 => Draft { red_ban_2: Some(pick), ..self },
            Turn::RedBan3 => Draft { red_ban_3: Some(pick), ..self },
            Turn::RedBan4 => Draft { red_ban_4: Some(pick), ..self },
            Turn::RedBan5 => Draft { red_ban_5: Some(pick), ..self },
            Turn::BluePick1 => Draft { blue_pick_1: Some(pick), ..self },
            Turn::BluePick2 => Draft { blue_pick_2: Some(pick), ..self },
            Turn::BluePick3 => Draft { blue_pick_3: Some(pick), ..self },
            Turn::BluePick4 => Draft { blue_pick_4: Some(pick), ..self },
            Turn::BluePick5 => Draft { blue_pick_5: Some(pick), ..self },
            Turn::RedPick1 => Draft { red_pick_1: Some(pick), ..self },
            Turn::RedPick2 => Draft { red_pick_2: Some(pick), ..self },
            Turn::RedPick3 => Draft { red_pick_3: Some(pick), ..self },
            Turn::RedPick4 => Draft { red_pick_4: Some(pick), ..self },
            Turn::RedPick5 => Draft { red_pick_5: Some(pick), ..self },
            Turn::PostDraft => self,
        }
    }

    /// The state after the turn advances one position; every slot and flag
    /// keeps its value.
    pub open spec fn advance_spec(self) -> Draft {
        Draft { turn: self.turn.next_spec(), ..self }
    }

    /// A candidate is already chosen when it sits in a slot other than the
    /// current turn's own slot. The current slot is exempt so that a
    /// speculative, unconfirmed selection never excludes itself.
    pub open spec fn champ_chosen_spec(self, id: u32) -> bool {
        ||| self.blue_ban_1 == Some(id) && self.turn != Turn::BlueBan1
        ||| self.blue_ban_2 == Some(id) && self.turn != Turn::BlueBan2
        ||| self.blue_ban_3 == Some(id) && self.turn != Turn::BlueBan3
        ||| self.blue_ban_4 == Some(id) && self.turn != Turn::BlueBan4
        ||| self.blue_ban_5 == Some(id) && self.turn != Turn::BlueBan5
        ||| self.red_ban_1 == Some(id) && self.turn != Turn::RedBan1
        ||| self.red_ban_2 == Some(id) && self.turn != Turn::RedBan2
        ||| self.red_ban_3 == Some(id) && self.turn != Turn::RedBan3
        ||| self.red_ban_4 == Some(id) && self.turn != Turn::RedBan4
        ||| self.red_ban_5 == Some(id) && self.turn != Turn::RedBan5
        ||| self.blue_pick_1 == Some(id) && self.turn != Turn::BluePick1
        ||| self.blue_pick_2 == Some(id) && self.turn != Turn::BluePick2
        ||| self.blue_pick_3 == Some(id) && self.turn != Turn::BluePick3
        ||| self.blue_pick_4 == Some(id) && self.turn != Turn::BluePick4
        ||| self.blue_pick_5 == Some(id) && self.turn != Turn::BluePick5
        ||| self.red_pick_1 == Some(id) && self.turn != Turn::RedPick1
        ||| self.red_pick_2 == Some(id) && self.turn != Turn::RedPick2
        ||| self.red_pick_3 == Some(id) && self.turn != Turn::RedPick3
        ||| self.red_pick_4 == Some(id) && self.turn != Turn::RedPick4
        ||| self.red_pick_5 == Some(id) && self.turn != Turn::RedPick5
    }

    /// The team a credential proves membership in; any other caller is a
    /// read-only spectator.
    pub open spec fn team_of_spec(self, token: u128) -> Option<Team> {
        if token == self.blue_id {
            Some(Team::Blue)
        } else if token == self.red_id {
            Some(Team::Red)
        } else {
            None
        }
    }

    /// Whether the credential belongs to the team that owns the current
    /// turn; false at either sentinel.
    pub open spec fn owns_turn_spec(self, token: u128) -> bool {
        ||| self.turn.owner_spec() == Some(Team::Blue) && token == self.blue_id
        ||| self.turn.owner_spec() == Some(Team::Red) && token == self.red_id
    }

    /// The fresh draft under the given identities: all slots unset, both
    /// readiness flags false, the turn at the initial sentinel.
    pub open spec fn empty_spec(draft_id: u128, blue_id: u128, red_id: u128) -> Draft {
        Draft {
            draft_id,
            blue_id,
            red_id,
            blue_ready: false,
            red_ready: false,
            blue_ban_1: None,
            blue_ban_2: None,
            blue_ban_3: None,
            blue_ban_4: None,
            blue_ban_5: None,
            red_ban_1: None,
            red_ban_2: None,
            red_ban_3: None,
            red_ban_4: None,
            red_ban_5: None,
            blue_pick_1: None,
            blue_pick_2: None,
            blue_pick_3: None,
            blue_pick_4: None,
            blue_pick_5: None,
            red_pick_1: None,
            red_pick_2: None,
            red_pick_3: None,
            red_pick_4: None,
            red_pick_5: None,
            turn: Turn::PreDraft,
        }
    }

    /// A fresh draft: all slots unset, both readiness flags false, the turn
    /// at the initial sentinel.
    pub fn new(draft_id: u128, blue_id: u128, red_id: u128) -> (r: Draft)
        requires
            blue_id != red_id,
        ensures
            r == Draft::empty_spec(draft_id, blue_id, red_id),
            r.wf(),
            r.draft_id == draft_id,
            r.blue_id == blue_id,
            r.red_id == red_id,
            !r.blue_ready,
            !r.red_ready,
            r.turn == Turn::PreDraft,
            forall|t: Turn| r.pick_at(t) is None,
    {
        Draft {
            draft_id,
            blue_id,
            red_id,
            blue_ready: false,
            red_ready: false,
            blue_ban_1: None,
            blue_ban_2: None,
            blue_ban_3: None,
            blue_ban_4: None,
            blue_ban_5: None,
            red_ban_1: None,
            red_ban_2: None,
            red_ban_3: None,
            red_ban_4: None,
            red_ban_5: None,
            blue_pick_1: None,
            blue_pick_2: None,
            blue_pick_3: None,
            blue_pick_4: None,
            blue_pick_5: None,
            red_pick_1: None,
            red_pick_2: None,
            red_pick_3: None,
            red_pick_4: None,
            red_pick_5: None,
            turn: Turn::PreDraft,
        }
    }

    /// The content of the slot owned by the given turn.
    pub fn get_pick(&self, turn: &Turn) -> (r: Option<u32>)
        ensures
            r == self.pick_at(*turn),
    {
        match turn {
            Turn::PreDraft => None,
            Turn::BlueBan1 => self.blue_ban_1,
            Turn::BlueBan2 => self.blue_ban_2,
            Turn::BlueBan3 => self.blue_ban_3,
            Turn::BlueBan4 => self.blue_ban_4,
            Turn::BlueBan5 => self.blue_ban_5,
            Turn::RedBan1 => self.red_ban_1,
            Turn::RedBan2 => self.red_ban_2,
            Turn::RedBan3 => self.red_ban_3,
            Turn::RedBan4 => self.red_ban_4,
            Turn::RedBan5 => self.red_ban_5,
            Turn::BluePick1 => self.blue_pick_1,
            Turn::BluePick2 => self.blue_pick_2,
            Turn::BluePick3 => self.blue_pick_3,
            Turn::BluePick4 => self.blue_pick_4,
            Turn::BluePick5 => self.blue_pick_5,
            Turn::RedPick1 => self.red_pick_1,
            Turn::RedPick2 => self.red_pick_2,
            Turn::RedPick3 => self.red_pick_3,
            Turn::RedPick4 => self.red_pick_4,
            Turn::RedPick5 => self.red_pick_5,
            Turn::PostDraft => None,
        }
    }

    /// The content of the slot owned by the current turn.
    pub fn current_pick(&self) -> (r: Option<u32>)
        ensures
            r == self.pick_at(self.turn),
    {
        self.get_pick(&self.turn)
    }

    /// Write `pick` into the slot owned by the current turn, overwriting any
    /// prior speculative value there; at a sentinel nothing changes.
    pub fn select_pick(&mut self, pick: u32)
        ensures
            *final(self) == old(self).select_spec(pick),
    {
        let pick = Some(pick);
        match self.turn {
            Turn::BlueBan1 => self.blue_ban_1 = pick,
            Turn::BlueBan2 => self.blue_ban_2 = pick,
            Turn::BlueBan3 => self.blue_ban_3 = pick,
            Turn::BlueBan4 => self.blue_ban_4 = pick,
            Turn::BlueBan5 => self.blue_ban_5 = pick,
            Turn::RedBan1 => self.red_ban_1 = pick,
            Turn::RedBan2 => self.red_ban_2 = pick,
            Turn::RedBan3 => self.red_ban_3 = pick,
            Turn::RedBan4 => self.red_ban_4 = pick,
            Turn::RedBan5 => self.red_ban_5 = pick,
            Turn::BluePick1 => self.blue_pick_1 = pick,
            Turn::BluePick2 => self.blue_pick_2 = pick,
            Turn::BluePick3 => self.blue_pick_3 = pick,
            Turn::BluePick4 => self.blue_pick_4 = pick,
            Turn::BluePick5 => self.blue_pick_5 = pick,
            Turn::RedPick1 => self.red_pick_1 = pick,
            Turn::RedPick2 => self.red_pick_2 = pick,
            Turn::RedPick3 => self.red_pick_3 = pick,
            Turn::RedPick4 => self.red_pick_4 = pick,
            Turn::RedPick5 => self.red_pick_5 = pick,
            _ => (),
        }
    }

    /// Advance the turn one position in the fixed order.
    pub fn next_turn(&mut self)
        ensures
            *final(self) == old(self).advance_spec(),
    {
        self.turn = self.turn.next();
    }

    /// Whether the candidate is already chosen in a slot other than the
    /// current turn's own slot.
    pub fn is_champ_chosen(&self, id: u32) -> (r: bool)
        ensures
            r == self.champ_chosen_spec(id),
    {
        slot_holds(self.blue_ban_1, id) && !matches!(self.turn, Turn::BlueBan1) ||
        slot_holds(self.blue_ban_2, id) && !matches!(self.turn, Turn::BlueBan2) ||
        slot_holds(self.blue_ban_3, id) && !matches!(self.turn, Turn::BlueBan3) ||
        slot_holds(self.blue_ban_4, id) && !matches!(self.turn, Turn::BlueBan4) ||
        slot_holds(self.blue_ban_5, id) && !matches!(self.turn, Turn::BlueBan5) ||
        slot_holds(self.blue_pick_1, id) && !matches!(self.turn, Turn::BluePick1) ||
        slot_holds(self.blue_pick_2, id) && !matches!(self.turn, Turn::BluePick2) ||
        slot_holds(self.blue_pick_3, id) && !matches!(self.turn, Turn::BluePick3) ||
        slot_holds(self.blue_pick_4, id) && !matches!(self.turn, Turn::BluePick4) ||
        slot_holds(self.blue_pick_5, id) && !matches!(self.turn, Turn::BluePick5) ||
        slot_holds(self.red_ban_1, id) && !matches!(self.turn, Turn::RedBan1) ||
        slot_holds(self.red_ban_2, id) && !matches!(self.turn, Turn::RedBan2) ||
        slot_holds(self.red_ban_3, id) && !matches!(self.turn, Turn::RedBan3) ||
        slot_holds(self.red_ban_4, id) && !matches!(self.turn, Turn::RedBan4) ||
        slot_holds(self.red_ban_5, id) && !matches!(self.turn, Turn::RedBan5) ||
        slot_holds(self.red_pick_1, id) && !matches!(self.turn, Turn::RedPick1) ||
        slot_holds(self.red_pick_2, id) && !matches!(self.turn, Turn::RedPick2) ||
        slot_holds(self.red_pick_3, id) && !matches!(self.turn, Turn::RedPick3) ||
        slot_holds(self.red_pick_4, id) && !matches!(self.turn, Turn::RedPick4) ||
        slot_holds(self.red_pick_5, id) && !matches!(self.turn, Turn::RedPick5)
    }

    /// The team the credential proves membership in, if either.
    pub fn team_of(&self, token: u128) -> (r: Option<Team>)
        ensures
            r == self.team_of_spec(token),
    {
        if token == self.blue_id {
            Some(Team::Blue)
        } else if token == self.red_id {
            Some(Team::Red)
        } else {
            None
        }
    }

    /// Whether the credential belongs to the team that owns the current turn.
    pub fn owns_turn(&self, token: u128) -> (r: bool)
        ensures
            r == self.owns_turn_spec(token),
    {
        self.turn.is_blue() && self.blue_id == token || self.turn.is_red() && self.red_id == token
    }
}

/// Whether a slot holds exactly the given catalog identifier.
fn slot_holds(slot: Option<u32>, id: u32) -> (r: bool)
    ensures
        r == (slot == Some(id)),
{
    match slot {
        Some(selection_id) => selection_id == id,
        None => false,
    }
}

/// Writing the current slot changes that slot alone: every other slot, both
/// readiness flags, the identities and the turn keep their values, and at a
/// sentinel turn nothing at all changes.
pub proof fn lemma_select_spec(d: Draft, pick: u32)
    ensures
        d.select_spec(pick).turn == d.turn,
        d.select_spec(pick).draft_id == d.draft_id,
        d.select_spec(pick).blue_id == d.blue_id,
        d.select_spec(pick).red_id == d.red_id,
        d.select_spec(pick).blue_ready == d.blue_ready,
        d.select_spec(pick).red_ready == d.red_ready,
        !d.turn.is_sentinel_spec() ==> d.select_spec(pick).pick_at(d.turn) == Some(pick),
        d.turn.is_sentinel_spec() ==> d.select_spec(pick) == d,
        forall|t: Turn| t != d.turn ==> d.select_spec(pick).pick_at(t) == d.pick_at(t),
{
}

/// Advancing the turn touches no slot, no flag and no identity.
pub proof fn lemma_advance_spec(d: Draft)
    ensures
        d.advance_spec().turn == d.turn.next_spec(),
        d.advance_spec().draft_id == d.draft_id,
        d.advance_spec().blue_id == d.blue_id,
        d.advance_spec().red_id == d.red_id,
        d.advance_spec().blue_ready == d.blue_ready,
        d.advance_spec().red_ready == d.red_ready,
        forall|t: Turn| d.advance_spec().pick_at(t) == d.pick_at(t),
{
}

/// The exclusion rule in quantified form: a candidate counts as chosen
/// exactly when some turn other than the current one owns a slot holding it.
pub proof fn lemma_champ_chosen_exists(d: Draft, id: u32)
    ensures
        d.champ_chosen_spec(id) <==> exists|t: Turn|
            d.pick_at(t) == Some(id) && t != d.turn,
{
    if d.champ_chosen_spec(id) {
        if d.blue_ban_1 == Some(id) && d.turn != Turn::BlueBan1 {
            assert(d.pick_at(Turn::BlueBan1) == Some(id) && Turn::BlueBan1 != d.turn);
        } else if d.blue_ban_2 == Some(id) && d.turn != Turn::BlueBan2 {
            assert(d.pick_at(Turn::BlueBan2) == Some(id) && Turn::BlueBan2 != d.turn);
        } else if d.blue_ban_3 == Some(id) && d.turn != Turn::BlueBan3 {
            assert(d.pick_at(Turn::BlueBan3) == Some(id) && Turn::BlueBan3 != d.turn);
        } else if d.blue_ban_4 == Some(id) && d.turn != Turn::BlueBan4 {
            assert(d.pick_at(Turn::BlueBan4) == Some(id) && Turn::BlueBan4 != d.turn);
        } else if d.blue_ban_5 == Some(id) && d.turn != Turn::BlueBan5 {
            assert(d.pick_at(Turn::BlueBan5) == Some(id) && Turn::BlueBan5 != d.turn);
        } else if d.red_ban_1 == Some(id) && d.turn != Turn::RedBan1 {
            assert(d.pick_at(Turn::RedBan1) == Some(id) && Turn::RedBan1 != d.turn);
        } else if d.red_ban_2 == Some(id) && d.turn != Turn::RedBan2 {
            assert(d.pick_at(Turn::RedBan2) == Some(id) && Turn::RedBan2 != d.turn);
        } else if d.red_ban_3 == Some(id) && d.turn != Turn::RedBan3 {
            assert(d.pick_at(Turn::RedBan3) == Some(id) && Turn::RedBan3 != d.turn);
        } else if d.red_ban_4 == Some(id) && d.turn != Turn::RedBan4 {
            assert(d.pick_at(Turn::RedBan4) == Some(id) && Turn::RedBan4 != d.turn);
        } else if d.red_ban_5 == Some(id) && d.turn != Turn::RedBan5 {
            assert(d.pick_at(Turn::RedBan5) == Some(id) && Turn::RedBan5 != d.turn);
        } else if d.blue_pick_1 == Some(id) && d.turn != Turn::BluePick1 {
            assert(d.pick_at(Turn::BluePick1) == Some(id) && Turn::BluePick1 != d.turn);
        } else if d.blue_pick_2 == Some(id) && d.turn != Turn::BluePick2 {
            assert(d.pick_at(Turn::BluePick2) == Some(id) && Turn::BluePick2 != d.turn);
        } else if d.blue_pick_3 == Some(id) && d.turn != Turn::BluePick3 {
            assert(d.pick_at(Turn::BluePick3) == Some(id) && Turn::BluePick3 != d.turn);
        } else if d.blue_pick_4 == Some(id) && d.turn != Turn::BluePick4 {
            assert(d.pick_at(Turn::BluePick4) == Some(id) && Turn::BluePick4 != d.turn);
        } else if d.blue_pick_5 == Some(id) && d.turn != Turn::BluePick5 {
            assert(d.pick_at(Turn::BluePick5) == Some(id) && Turn::BluePick5 != d.turn);
        } else if d.red_pick_1 == Some(id) && d.turn != Turn::RedPick1 {
            assert(d.pick_at(Turn::RedPick1) == Some(id) && Turn::RedPick1 != d.turn);
        } else if d.red_pick_2 == Some(id) && d.turn != Turn::RedPick2 {
            assert(d.pick_at(Turn::RedPick2) == Some(id) && Turn::RedPick2 != d.turn);
        } else if d.red_pick_3 == Some(id) && d.turn != Turn::RedPick3 {
            assert(d.pick_at(Turn::RedPick3) == Some(id) && Turn::RedPick3 != d.turn);
        } else if d.red_pick_4 == Some(id) && d.turn != Turn::RedPick4 {
            assert(d.pick_at(Turn::RedPick4) == Some(id) && Turn::RedPick4 != d.turn);
        } else {
            assert(d.pick_at(Turn::RedPick5) == Some(id) && Turn::RedPick5 != d.turn);
        }
    }
}

} // verus!
