//! The finished record of a draft — the flattened twenty slots plus a
//! completion timestamp — and the idempotent completion handoff.

use vstd::prelude::*;
use crate::draft::Draft;
use crate::session::DraftError;
use crate::turn::Turn;

verus! {

/// Reads the completion time.
///
/// Relies on `chrono::Local::now` and `chrono::DateTime::timestamp`: the
/// current time, read as whole seconds since the Unix epoch. The value
/// depends on the system clock, so nothing is promised of it.
#[verifier::external_body]
fn now_timestamp() -> (r: i64) {
    chrono::Local::now().timestamp()
}

/// One persisted draft: the flattened slots, keyed by the session
/// identifier, stamped with the completion time.
#[derive(Clone, Copy, Debug, PartialEq, Eq)]
pub struct Model {
    pub draft_id: u128,

    pub blue_ban_1: Option<u32>,
    pub blue_ban_2: Option<u32>,
    pub blue_ban_3: Option<u32>,
    pub blue_ban_4: Option<u32>,
    pub blue_ban_5: Option<u32>,

    pub red_ban_1: Option<u32>,
    pub red_ban_2: Option<u32>,
    pub red_ban_3: Option<u32>,
    pub red_ban_4: Option<u32>,
    pub red_ban_5: Option<u32>,

    pub blue_pick_1: Option<u32>,
    pub blue_pick_2: Option<u32>,
    pub blue_pick_3: Option<u32>,
    pub blue_pick_4: Option<u32>,
    pub blue_pick_5: Option<u32>,

    pub red_pick_1: Option<u32>,
    pub red_pick_2: Option<u32>,
    pub red_pick_3: Option<u32>,
    pub red_pick_4: Option<u32>,
    pub red_pick_5: Option<u32>,

    pub date_completed: i64,
}

impl Model {
    /// The record a draft flattens to under the given completion time.
    pub open spec fn from_draft_spec(d: Draft, date_completed: i64) -> Model {
        Model {
            draft_id: d.draft_id,
            blue_ban_1: d.blue_ban_1,
            blue_ban_2: d.blue_ban_2,
            blue_ban_3: d.blue_ban_3,
            blue_ban_4: d.blue_ban_4,
            blue_ban_5: d.blue_ban_5,
            red_ban_1: d.red_ban_1,
            red_ban_2: d.red_ban_2,
            red_ban_3: d.red_ban_3,
            red_ban_4: d.red_ban_4,
            red_ban_5: d.red_ban_5,
            blue_pick_1: d.blue_pick_1,
            blue_pick_2: d.blue_pick_2,
            blue_pick_3: d.blue_pick_3,
            blue_pick_4: d.blue_pick_4,
            blue_pick_5: d.blue_pick_5,
            red_pick_1: d.red_pick_1,
            red_pick_2: d.red_pick_2,
            red_pick_3: d.red_pick_3,
            red_pick_4: d.red_pick_4,
            red_pick_5: d.red_pick_5,
            date_completed,
        }
    }

    /// The slot owned by the given turn; the sentinels own no slot.
    pub open spec fn pick_at(self, turn: Turn) -> Option<u32> {
        match turn {
            Turn::PreDraft => None,
            Turn::BlueBan1 => self.blue_ban_1,
            Turn::BlueBan2 => self.blue_ban_2,
            Turn::BlueBan3 => self.blue_ban_3,
            Turn::BlueBan4 => self.blue_ban_4,
            Turn::BlueBan5 => self.blue_ban_5,
            Turn::RedBan1 => self.red_ban_1,
            Turn::RedBan2 => self.red_ban_2,
            Turn::RedBan3 => self.red_ban_3,
            Turn::RedBan4 => self.red_ban_4,
            Turn::RedBan5 => self.red_ban_5,
            Turn::BluePick1 => self.blue_pick_1,
            Turn::BluePick2 => self.blue_pick_2,
            Turn::BluePick3 => self.blue_pick_3,
            Turn::BluePick4 => self.blue_pick_4,
            Turn::BluePick5 => self.blue_pick_5,
            Turn::RedPick1 => self.red_pick_1,
            Turn::RedPick2 => self.red_pick_2,
            Turn::RedPick3 => self.red_pick_3,
            Turn::RedPick4 => self.red_pick_4,
            Turn::RedPick5 => self.red_pick_5,
            Turn::PostDraft => None,
        }
    }

    /// Flatten a draft into its record under the given completion time;
    /// every slot carries over to the slot of the same turn.
    pub fn from_draft(d: &Draft, date_completed: i64) -> (r: Model)
        ensures
            r == Model::from_draft_spec(*d, date_completed),
            forall|t: Turn| r.pick_at(t) == d.pick_at(t),
    {
        Model {
            draft_id: d.draft_id,
            blue_ban_1: d.blue_ban_1,
            blue_ban_2: d.blue_ban_2,
            blue_ban_3: d.blue_ban_3,
            blue_ban_4: d.blue_ban_4,
            blue_ban_5: d.blue_ban_5,
            red_ban_1: d.red_ban_1,
            red_ban_2: d.red_ban_2,
            red_ban_3: d.red_ban_3,
            red_ban_4: d.red_ban_4,
            red_ban_5: d.red_ban_5,
            blue_pick_1: d.blue_pick_1,
            blue_pick_2: d.blue_pick_2,
            blue_pick_3: d.blue_pick_3,
            blue_pick_4: d.blue_pick_4,
            blue_pick_5: d.blue_pick_5,
            red_pick_1: d.red_pick_1,
            red_pick_2: d.red_pick_2,
            red_pick_3: d.red_pick_3,
            red_pick_4: d.red_pick_4,
            red_pick_5: d.red_pick_5,
            date_completed,
        }
    }

    /// Flatten a draft into its record, stamped with the completion time
    /// read from the system clock.
    pub fn completed_record(d: &Draft) -> (r: Model)
        ensures
            r == Model::from_draft_spec(*d, r.date_completed),
            forall|t: Turn| r.pick_at(t) == d.pick_at(t),
    {
        let date_completed = now_timestamp();
        Model::from_draft(d, date_completed)
    }

    /// The content of the slot owned by the given turn.
    pub fn get_pick(&self, turn: &Turn) -> (r: Option<u32>)
        ensures
            r == self.pick_at(*turn),
    {
        match turn {
            Turn::PreDraft => None,
            Turn::BlueBan1 => self.blue_ban_1,
            Turn::BlueBan2 => self.blue_ban_2,
            Turn::BlueBan3 => self.blue_ban_3,
            Turn::BlueBan4 => self.blue_ban_4,
            Turn::BlueBan5 => self.blue_ban_5,
            Turn::RedBan1 => self.red_ban_1,
            Turn::RedBan2 => self.red_ban_2,
            Turn::RedBan3 => self.red_ban_3,
            Turn::RedBan4 => self.red_ban_4,
            Turn::RedBan5 => self.red_ban_5,
            Turn::BluePick1 => self.blue_pick_1,
            Turn::BluePick2 => self.blue_pick_2,
            Turn::BluePick3 => self.blue_pick_3,
            Turn::BluePick4 => self.blue_pick_4,
            Turn::BluePick5 => self.blue_pick_5,
            Turn::RedPick1 => self.red_pick_1,
            Turn::RedPick2 => self.red_pick_2,
            Turn::RedPick3 => self.red_pick_3,
            Turn::RedPick4 => self.red_pick_4,
            Turn::RedPick5 => self.red_pick_5,
            Turn::PostDraft => None,
        }
    }
}

/// A store of completed drafts that tolerates repeated saves of the same
/// session: a duplicate is rejected with a conflict and corrupts nothing.
pub struct CompletedStore {
    pub records: Vec<Model>,
}

impl CompletedStore {
    /// No stored identifier repeats.
    pub open spec fn wf(self) -> bool {
        forall|i: int, j: int|
            0 <= i < j < self.records@.len() ==> (#[trigger] self.records@[i]).draft_id != (
            #[trigger] self.records@[j]).draft_id
    }

    /// Whether a record with this identifier is already stored.
    pub open spec fn has_record(self, sid: u128) -> bool {
        exists|i: int| 0 <= i < self.records@.len() && (#[trigger] self.records@[i]).draft_id == sid
    }

    /// An empty store.
    pub fn new() -> (r: CompletedStore)
        ensures
            r.wf(),
            r.records@.len() == 0,
    {
        CompletedStore { records: Vec::new() }
    }

    /// The position of the record with this identifier, if any.
    fn find(&self, sid: u128) -> (r: Option<usize>)
        requires
            self.wf(),
        ensures
            match r {
                Some(i) => i < self.records@.len() && self.records@[i as int].draft_id == sid
                    && self.has_record(sid),
                None => !self.has_record(sid),
            },
    {
        let mut i: usize = 0;
        while i < self.records.len()
            invariant
                i <= self.records@.len(),
                forall|j: int| 0 <= j < i ==> (#[trigger] self.records@[j]).draft_id != sid,
            decreases self.records@.len() - i,
        {
            if self.records[i].draft_id == sid {
                return Some(i);
            }
            i = i + 1;
        }
        None
    }

    /// Save a completed draft. The first save of an identifier succeeds and
    /// appends the record; any later save of the same identifier reports
    /// `PersistenceConflict` and leaves the store untouched.
    pub fn save_completed(&mut self, record: Model) -> (r: Result<(), DraftError>)
        requires
            old(self).wf(),
        ensures
            final(self).wf(),
            old(self).has_record(record.draft_id) ==> r == Err::<(), DraftError>(
                DraftError::PersistenceConflict,
            ) && *final(self) == *old(self),
            !old(self).has_record(record.draft_id) ==> r == Ok::<(), DraftError>(())
                && final(self).records@ == old(self).records@.push(record),
    {
        match self.find(record.draft_id) {
            Some(_) => Err(DraftError::PersistenceConflict),
            None => {
                self.records.push(record);
                proof {
                    let n = self.records@.len() - 1;
                    assert forall|i: int, j: int|
                        0 <= i < j < self.records@.len() implies (
                    #[trigger] self.records@[i]).draft_id != (
                    #[trigger] self.records@[j]).draft_id by {
                        if j == n {
                            assert(old(self).records@[i].draft_id != record.draft_id);
                        }
                    }
                }
                Ok(())
            },
        }
    }

    /// Look up the stored record of a completed draft.
    pub fn get(&self, sid: u128) -> (r: Option<Model>)
        requires
            self.wf(),
        ensures
            match r {
                Some(m) => self.has_record(sid) && m.draft_id == sid,
                None => !self.has_record(sid),
            },
    {
        match self.find(sid) {
            Some(i) => Some(self.records[i]),
            None => None,
        }
    }
}

/// What a save outcome means to the engine's caller: a duplicate save of an
/// already-persisted session is success, not a user-facing failure.
pub open spec fn reconcile_spec(r: Result<(), DraftError>) -> Result<(), DraftError> {
    if r == Err::<(), DraftError>(DraftError::PersistenceConflict) {
        Ok(())
    } else {
        r
    }
}

/// Fold a save outcome into what the engine's caller reports: a
/// `PersistenceConflict` — the store already held this session's record —
/// becomes success, and every other outcome passes through.
pub fn reconcile_save(r: Result<(), DraftError>) -> (out: Result<(), DraftError>)
    ensures
        out == reconcile_spec(r),
{
    match r {
        Err(DraftError::PersistenceConflict) => Ok(()),
        _ => r,
    }
}

} // verus!
