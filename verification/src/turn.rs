//! The turn sequencer: a total successor function over the fixed draft order.

use vstd::prelude::*;

verus! {

/// The side that owns a non-sentinel turn.
#[derive(Clone, Copy, Debug, PartialEq, Eq, Structural)]
pub enum Team {
    Blue,
    Red,
}

/// What a non-sentinel turn does: exclude a candidate, or claim one.
#[derive(Clone, Copy, Debug, PartialEq, Eq, Structural)]
pub enum TurnKind {
    Ban,
    Pick,
}

/// One position of the draft. `PreDraft` and `PostDraft` are the sentinel
/// boundary states; every other turn is owned by one team and writes one slot.
#[derive(Clone, Copy, Debug, PartialEq, Eq, Structural)]
pub enum Turn {
    PreDraft,
    BlueBan1,
    BlueBan2,
    BlueBan3,
    BlueBan4,
    BlueBan5,
    RedBan1,
    RedBan2,
    RedBan3,
    RedBan4,
    RedBan5,
    BluePick1,
    BluePick2,
    BluePick3,
    BluePick4,
    BluePick5,
    RedPick1,
    RedPick2,
    RedPick3,
    RedPick4,
    RedPick5,
    PostDraft,
}

impl Turn {
    /// Position of this turn in the fixed draft order, `PreDraft` first and
    /// `PostDraft` last.
    pub open spec fn index_spec(self) -> int {
        match self {
            Turn::PreDraft => 0,
            Turn::BlueBan1 => 1,
            Turn::RedBan1 => 2,
            Turn::BlueBan2 => 3,
            Turn::RedBan2 => 4,
            Turn::BlueBan3 => 5,
            Turn::RedBan3 => 6,
            Turn::BluePick1 => 7,
            Turn::RedPick1 => 8,
            Turn::RedPick2 => 9,
            Turn::BluePick2 => 10,
            Turn::BluePick3 => 11,
            Turn::RedPick3 => 12,
            Turn::RedBan4 => 13,
            Turn::BlueBan4 => 14,
            Turn::RedBan5 => 15,
            Turn::BlueBan5 => 16,
            Turn::RedPick4 => 17,
            Turn::BluePick4 => 18,
            Turn::BluePick5 => 19,
            Turn::RedPick5 => 20,
            Turn::PostDraft => 21,
        }
    }

    /// The turn that follows this one. `PostDraft` is terminal and absorbing.
    pub open spec fn next_spec(self) -> Turn {
        match self {
            Turn::PreDraft => Turn::BlueBan1,
            Turn::BlueBan1 => Turn::RedBan1,
            Turn::RedBan1 => Turn::BlueBan2,
            Turn::BlueBan2 => Turn::RedBan2,
            Turn::RedBan2 => Turn::BlueBan3,
            Turn::BlueBan3 => Turn::RedBan3,
            Turn::RedBan3 => Turn::BluePick1,
            Turn::BluePick1 => Turn::RedPick1,
            Turn::RedPick1 => Turn::RedPick2,
            Turn::RedPick2 => Turn::BluePick2,
            Turn::BluePick2 => Turn::BluePick3,
            Turn::BluePick3 => Turn::RedPick3,
            Turn::RedPick3 => Turn::RedBan4,
            Turn::RedBan4 => Turn::BlueBan4,
            Turn::BlueBan4 => Turn::RedBan5,
            Turn::RedBan5 => Turn::BlueBan5,
            Turn::BlueBan5 => Turn::RedPick4,
            Turn::RedPick4 => Turn::BluePick4,
            Turn::BluePick4 => Turn::BluePick5,
            Turn::BluePick5 => Turn::RedPick5,
            Turn::RedPick5 => Turn::PostDraft,
            Turn::PostDraft => Turn::PostDraft,
        }
    }

    /// The team that owns this turn; the sentinels belong to neither team.
    pub open spec fn owner_spec(self) -> Option<Team> {
        match self {
            Turn::PreDraft => None,
            Turn::PostDraft => None,
            Turn::BlueBan1 => Some(Team::Blue),
            Turn::BlueBan2 => Some(Team::Blue),
            Turn::BlueBan3 => Some(Team::Blue),
            Turn::BlueBan4 => Some(Team::Blue),
            Turn::BlueBan5 => Some(Team::Blue),
            Turn::BluePick1 => Some(Team::Blue),
            Turn::BluePick2 => Some(Team::Blue),
            Turn::BluePick3 => Some(Team::Blue),
            Turn::BluePick4 => Some(Team::Blue),
            Turn::BluePick5 => Some(Team::Blue),
            Turn::RedBan1 => Some(Team::Red),
            Turn::RedBan2 => Some(Team::Red),
            Turn::RedBan3 => Some(Team::Red),
            Turn::RedBan4 => Some(Team::Red),
            Turn::RedBan5 => Some(Team::Red),
            Turn::RedPick1 => Some(Team::Red),
            Turn::RedPick2 => Some(Team::Red),
            Turn::RedPick3 => Some(Team::Red),
            Turn::RedPick4 => Some(Team::Red),
            Turn::RedPick5 => Some(Team::Red),
        }
    }

    /// Whether this turn bans or picks; the sentinels do neither.
    pub open spec fn kind_spec(self) -> Option<TurnKind> {
        match self {
            Turn::PreDraft => None,
            Turn::PostDraft => None,
            Turn::BlueBan1 => Some(TurnKind::Ban),
            Turn::BlueBan2 => Some(TurnKind::Ban),
            Turn::BlueBan3 => Some(TurnKind::Ban),
            Turn::BlueBan4 => Some(TurnKind::Ban),
            Turn::BlueBan5 => Some(TurnKind::Ban),
            Turn::RedBan1 => Some(TurnKind::Ban),
            Turn::RedBan2 => Some(TurnKind::Ban),
            Turn::RedBan3 => Some(TurnKind::Ban),
            Turn::RedBan4 => Some(TurnKind::Ban),
            Turn::RedBan5 => Some(TurnKind::Ban),
            Turn::BluePick1 => Some(TurnKind::Pick),
            Turn::BluePick2 => Some(TurnKind::Pick),
            Turn::BluePick3 => Some(TurnKind::Pick),
            Turn::BluePick4 => Some(TurnKind::Pick),
            Turn::BluePick5 => Some(TurnKind::Pick),
            Turn::RedPick1 => Some(TurnKind::Pick),
            Turn::RedPick2 => Some(TurnKind::Pick),
            Turn::RedPick3 => Some(TurnKind::Pick),
            Turn::RedPick4 => Some(TurnKind::Pick),
            Turn::RedPick5 => Some(TurnKind::Pick),
        }
    }

    /// A sentinel turn is one of the two non-actionable boundary states.
    pub open spec fn is_sentinel_spec(self) -> bool {
        self == Turn::PreDraft || self == Turn::PostDraft
    }

    /// The turn that follows this one in the fixed order.
    pub fn next(self) -> (r: Turn)
        ensures
            r == self.next_spec(),
    {
        match self {
            Turn::PreDraft => Turn::BlueBan1,
            Turn::BlueBan1 => Turn::RedBan1,
            Turn::RedBan1 => Turn::BlueBan2,
            Turn::BlueBan2 => Turn::RedBan2,
            Turn::RedBan2 => Turn::BlueBan3,
            Turn::BlueBan3 => Turn::RedBan3,
            Turn::RedBan3 => Turn::BluePick1,
            Turn::BluePick1 => Turn::RedPick1,
            Turn::RedPick1 => Turn::RedPick2,
            Turn::RedPick2 => Turn::BluePick2,
            Turn::BluePick2 => Turn::BluePick3,
            Turn::BluePick3 => Turn::RedPick3,
            Turn::RedPick3 => Turn::RedBan4,
            Turn::RedBan4 => Turn::BlueBan4,
            Turn::BlueBan4 => Turn::RedBan5,
            Turn::RedBan5 => Turn::BlueBan5,
            Turn::BlueBan5 => Turn::RedPick4,
            Turn::RedPick4 => Turn::BluePick4,
            Turn::BluePick4 => Turn::BluePick5,
            Turn::BluePick5 => Turn::RedPick5,
            Turn::RedPick5 => Turn::PostDraft,
            Turn::PostDraft => Turn::PostDraft,
        }
    }

    /// The team that owns this turn, if any.
    pub fn owner(&self) -> (r: Option<Team>)
        ensures
            r == self.owner_spec(),
    {
        match self {
            Turn::PreDraft => None,
            Turn::PostDraft => None,
            Turn::BlueBan1 | Turn::BlueBan2 | Turn::BlueBan3 | Turn::BlueBan4 | Turn::BlueBan5
            | Turn::BluePick1 | Turn::BluePick2 | Turn::BluePick3 | Turn::BluePick4
            | Turn::BluePick5 => Some(Team::Blue),
            Turn::RedBan1 | Turn::RedBan2 | Turn::RedBan3 | Turn::RedBan4 | Turn::RedBan5
            | Turn::RedPick1 | Turn::RedPick2 | Turn::RedPick3 | Turn::RedPick4
            | Turn::RedPick5 => Some(Team::Red),
        }
    }

    /// Whether this turn bans or picks, if it is not a sentinel.
    pub fn kind(&self) -> (r: Option<TurnKind>)
        ensures
            r == self.kind_spec(),
    {
        match self {
            Turn::PreDraft => None,
            Turn::PostDraft => None,
            Turn::BlueBan1 | Turn::BlueBan2 | Turn::BlueBan3 | Turn::BlueBan4 | Turn::BlueBan5
            | Turn::RedBan1 | Turn::RedBan2 | Turn::RedBan3 | Turn::RedBan4 | Turn::RedBan5 => (
                Some(TurnKind::Ban)
            ),
            Turn::BluePick1 | Turn::BluePick2 | Turn::BluePick3 | Turn::BluePick4
            | Turn::BluePick5 | Turn::RedPick1 | Turn::RedPick2 | Turn::RedPick3
            | Turn::RedPick4 | Turn::RedPick5 => Some(TurnKind::Pick),
        }
    }

    /// True exactly on the ten ban turns.
    pub fn is_ban(&self) -> (r: bool)
        ensures
            r == (self.kind_spec() == Some(TurnKind::Ban)),
    {
        matches!(self.kind(), Some(TurnKind::Ban))
    }

    /// True exactly on the ten blue-owned turns.
    pub fn is_blue(&self) -> (r: bool)
        ensures
            r == (self.owner_spec() == Some(Team::Blue)),
    {
        matches!(self.owner(), Some(Team::Blue))
    }

    /// True exactly on the ten red-owned turns.
    pub fn is_red(&self) -> (r: bool)
        ensures
            r == (self.owner_spec() == Some(Team::Red)),
    {
        matches!(self.owner(), Some(Team::Red))
    }

    /// True on the initial sentinel.
    pub fn is_pre_draft(&self) -> (r: bool)
        ensures
            r == (*self == Turn::PreDraft),
    {
        matches!(self, Turn::PreDraft)
    }

    /// True on the terminal sentinel.
    pub fn is_post_draft(&self) -> (r: bool)
        ensures
            r == (*self == Turn::PostDraft),
    {
        matches!(self, Turn::PostDraft)
    }

    /// True on either sentinel.
    pub fn is_sentinel(&self) -> (r: bool)
        ensures
            r == self.is_sentinel_spec(),
    {
        matches!(self, Turn::PreDraft | Turn::PostDraft)
    }
}

/// The successor function walks the fixed order one position at a time: every
/// turn sits at one of the 22 positions, the terminal sentinel maps to itself,
/// and every other turn maps to the turn one position later.
pub proof fn lemma_turn_sequence(t: Turn)
    ensures
        0 <= t.index_spec() <= 21,
        t == Turn::PostDraft ==> t.next_spec() == Turn::PostDraft,
        t != Turn::PostDraft ==> t.next_spec().index_spec() == t.index_spec() + 1,
{
}

/// No two distinct turns share a position, so the order has no repeats: with
/// `lemma_turn_sequence` this pins the walk to the fixed 22-state order with
/// no skips.
pub proof fn lemma_turn_index_injective(t1: Turn, t2: Turn)
    ensures
        t1.index_spec() == t2.index_spec() ==> t1 == t2,
{
}

} // verus!
