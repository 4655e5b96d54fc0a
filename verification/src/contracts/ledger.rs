//! Cumulative consumption per user, and over all users.

use crate::utils::errors::Errors;
use crate::utils::primitives::{u256_limit, Address, U256};
use vstd::prelude::*;

verus! {

/// What one user has consumed so far.
#[derive(Clone, Copy, Debug, PartialEq, Eq)]
pub struct ConsumptionRecord {
    /// The user.
    pub user: Address,
    /// The user's cumulative consumption.
    pub consumption: U256,
}

/// The consumption that a list of records holds for a user: that of the last
/// record of the user, zero when there is none.
pub open spec fn consumption_in(records: Seq<ConsumptionRecord>, user: Seq<u8>) -> nat
    decreases records.len(),
{
    if records.len() == 0 {
        0
    } else if records.last().user@ == user {
        records.last().consumption@
    } else {
        consumption_in(records.drop_last(), user)
    }
}

/// The consumption of all records together.
pub open spec fn recorded_sum(records: Seq<ConsumptionRecord>) -> nat
    decreases records.len(),
{
    if records.len() == 0 {
        0
    } else {
        recorded_sum(records.drop_last()) + records.last().consumption@
    }
}

/// Whether no user has two records.
pub open spec fn distinct_users(records: Seq<ConsumptionRecord>) -> bool {
    forall|i: int, j: int|
        0 <= i < j < records.len() ==> (#[trigger] records[i]).user@ != (
        #[trigger] records[j]).user@
}

/// A user's last record decides the user's consumption.
pub proof fn lemma_last_record_decides(records: Seq<ConsumptionRecord>, user: Seq<u8>, i: int)
    requires
        0 <= i < records.len(),
        records[i].user@ == user,
        forall|j: int| i < j < records.len() ==> (#[trigger] records[j]).user@ != user,
    ensures
        consumption_in(records, user) == records[i].consumption@,
    decreases records.len(),
{
    if i < records.len() - 1 {
        assert(records.last() == records[records.len() - 1]);
        lemma_last_record_decides(records.drop_last(), user, i);
    }
}

/// A user without a record has consumed nothing.
pub proof fn lemma_no_record_is_zero(records: Seq<ConsumptionRecord>, user: Seq<u8>)
    requires
        forall|j: int| 0 <= j < records.len() ==> (#[trigger] records[j]).user@ != user,
    ensures
        consumption_in(records, user) == 0,
    decreases records.len(),
{
    if records.len() > 0 {
        assert(records.last() == records[records.len() - 1]);
        lemma_no_record_is_zero(records.drop_last(), user);
    }
}

/// Replacing a record by another of the same user leaves the other users'
/// consumption as it was.
pub proof fn lemma_replace_keeps_others(
    records: Seq<ConsumptionRecord>,
    i: int,
    record: ConsumptionRecord,
    other: Seq<u8>,
)
    requires
        0 <= i < records.len(),
        record.user@ == records[i].user@,
        other != record.user@,
    ensures
        consumption_in(records.update(i, record), other) == consumption_in(records, other),
    decreases records.len(),
{
    let updated = records.update(i, record);
    if i == records.len() - 1 {
        assert(updated.drop_last() =~= records.drop_last());
    } else {
        assert(updated.drop_last() =~= records.drop_last().update(i, record));
        lemma_replace_keeps_others(records.drop_last(), i, record, other);
    }
}

/// Replacing a record changes the sum by the difference of the two.
pub proof fn lemma_replace_sum(records: Seq<ConsumptionRecord>, i: int, record: ConsumptionRecord)
    requires
        0 <= i < records.len(),
    ensures
        recorded_sum(records.update(i, record)) + records[i].consumption@ == recorded_sum(records)
            + record.consumption@,
    decreases records.len(),
{
    let updated = records.update(i, record);
    if i == records.len() - 1 {
        assert(updated.drop_last() =~= records.drop_last());
    } else {
        assert(updated.drop_last() =~= records.drop_last().update(i, record));
        lemma_replace_sum(records.drop_last(), i, record);
    }
}

/// No user has consumed more than all users together.
pub proof fn lemma_sum_covers_user(records: Seq<ConsumptionRecord>, user: Seq<u8>)
    ensures
        consumption_in(records, user) <= recorded_sum(records),
    decreases records.len(),
{
    if records.len() > 0 {
        lemma_sum_covers_user(records.drop_last(), user);
    }
}

/// The per-user counters and the aggregate counter.
pub struct ConsumptionLedger {
    records: Vec<ConsumptionRecord>,
    total: U256,
}

impl ConsumptionLedger {
    /// The records held, one per user that has consumed.
    pub closed spec fn records(&self) -> Seq<ConsumptionRecord> {
        self.records@
    }

    /// The aggregate consumption.
    pub closed spec fn total(&self) -> nat {
        self.total@
    }

    /// What `user` has consumed: zero for a user never seen.
    pub open spec fn consumption_of(&self, user: Seq<u8>) -> nat {
        consumption_in(self.records(), user)
    }

    /// The consumption of every user.
    pub open spec fn consumptions(&self) -> Map<Seq<u8>, nat> {
        Map::total(|user: Seq<u8>| self.consumption_of(user))
    }

    /// A ledger is consistent when no user has two records and the aggregate
    /// is the sum of what the users have consumed.
    pub open spec fn wf(&self) -> bool {
        &&& distinct_users(self.records())
        &&& self.total() == recorded_sum(self.records())
    }

    /// In a consistent ledger an update has room as soon as the aggregate
    /// has: the aggregate is the first counter to run out.
    pub proof fn lemma_room_in_total_suffices(&self, user: Seq<u8>, added: nat)
        requires
            self.wf(),
            self.total() + added < u256_limit(),
        ensures
            self.consumption_of(user) + added < u256_limit(),
    {
        lemma_sum_covers_user(self.records(), user);
    }

    /// The ledger in which nobody has consumed anything.
    pub fn new() -> (ledger: Self)
        ensures
            ledger.wf(),
            ledger.total() == 0,
            ledger.records() == Seq::<ConsumptionRecord>::empty(),
            forall|user: Seq<u8>| ledger.consumption_of(user) == 0,
    {
        ConsumptionLedger { records: Vec::new(), total: U256::zero() }
    }

    /// A ledger as it was stored. Whether it is consistent is for `wf` to
    /// say.
    pub fn from_parts(records: Vec<ConsumptionRecord>, total: U256) -> (ledger: Self)
        ensures
            ledger.records() == records@,
            ledger.total() == total@,
    {
        ConsumptionLedger { records, total }
    }

    /// The records held.
    pub fn as_records(&self) -> (records: &Vec<ConsumptionRecord>)
        ensures
            records@ == self.records(),
    {
        &self.records
    }

    /// The index of the last record of `user`.
    fn position(&self, user: &Address) -> (found: Option<usize>)
        ensures
            match found {
                Some(i) => {
                    &&& i < self.records().len()
                    &&& self.records()[i as int].user@ == user@
                    &&& forall|j: int|
                        i < j < self.records().len() ==> (#[trigger] self.records()[j]).user@
                            != user@
                },
                None => forall|j: int|
                    0 <= j < self.records().len() ==> (#[trigger] self.records()[j]).user@
                        != user@,
            },
    {
        let mut i: usize = self.records.len();
        while i > 0
            invariant
                0 <= i <= self.records@.len(),
                forall|j: int|
                    i <= j < self.records@.len() ==> (#[trigger] self.records@[j]).user@ != user@,
            decreases i,
        {
            i -= 1;
            if self.records[i].user.same_as(user) {
                return Some(i);
            }
        }
        None
    }

    /// What `user` has consumed so far: zero for a user never seen.
    pub fn user_consumption(&self, user: &Address) -> (consumption: U256)
        ensures
            consumption@ == self.consumption_of(user@),
    {
        let found = self.position(user);
        match found {
            Some(i) => {
                proof {
                    lemma_last_record_decides(self.records(), user@, i as int);
                }
                self.records[i].consumption
            },
            None => {
                proof {
                    lemma_no_record_is_zero(self.records(), user@);
                }
                U256::zero()
            },
        }
    }

    /// What all users together have consumed.
    pub fn total_consumption(&self) -> (total: U256)
        ensures
            total@ == self.total(),
    {
        self.total
    }

    /// Adds `added` to what `user` has consumed and to the aggregate, and
    /// hands back the user's new total. When either sum would pass the
    /// largest 256-bit number, nothing is changed and the update fails.
    pub fn apply(&mut self, user: &Address, added: &U256) -> (result: Result<U256, Errors>)
        ensures
            result is Ok <==> {
                &&& old(self).consumption_of(user@) + added@ < u256_limit()
                &&& old(self).total() + added@ < u256_limit()
            },
            result is Err ==> {
                &&& result == Err::<U256, Errors>(Errors::ArithmeticOverflow)
                &&& *final(self) == *old(self)
            },
            result is Ok ==> {
                &&& result->Ok_0@ == old(self).consumption_of(user@) + added@
                &&& final(self).consumptions() == old(self).consumptions().insert(
                    user@,
                    old(self).consumption_of(user@) + added@,
                )
                &&& final(self).total() == old(self).total() + added@
            },
            old(self).wf() ==> final(self).wf(),
    {
        let found = self.position(user);
        let current = match found {
            Some(i) => self.records[i].consumption,
            None => U256::zero(),
        };
        proof {
            match found {
                Some(i) => lemma_last_record_decides(self.records(), user@, i as int),
                None => lemma_no_record_is_zero(self.records(), user@),
            }
        }
        let user_total = match current.checked_add(added) {
            Some(sum) => sum,
            None => {
                return Err(Errors::ArithmeticOverflow);
            },
        };
        let total = match self.total.checked_add(added) {
            Some(sum) => sum,
            None => {
                return Err(Errors::ArithmeticOverflow);
            },
        };
        let record = ConsumptionRecord { user: *user, consumption: user_total };
        let ghost before = self.records@;
        match found {
            Some(i) => {
                self.records.set(i, record);
                proof {
                    lemma_last_record_decides(self.records@, user@, i as int);
                    lemma_replace_sum(before, i as int, record);
                    assert forall|other: Seq<u8>| other != user@ implies consumption_in(
                        self.records@,
                        other,
                    ) == consumption_in(before, other) by {
                        lemma_replace_keeps_others(before, i as int, record, other);
                    }
                }
            },
            None => {
                self.records.push(record);
                assert(self.records@.drop_last() =~= before);
            },
        }
        self.total = total;
        assert(self.consumptions() =~= old(self).consumptions().insert(
            user@,
            old(self).consumption_of(user@) + added@,
        ));
        Ok(user_total)
    }
}

} // verus!
