//! Snapshots: binding a new one to the revision on record, listing,
//! overriding a value, and deleting a snapshot with the items it owns.

use crate::catalog::{max_revision, max_revision_of};
use crate::error::{Error, SqlFailure};
use crate::model::{Item, ItemRow, Snapshot, Timestamp};
use crate::pricing::MICROS_PER_CHAOS;
use crate::store::{
    item_number, lemma_append_numbered, lemma_filter_numbered, lemma_same_numbers,
    snapshot_number, Database,
};
use vstd::prelude::*;

verus! {

/// The snapshots of one profile.
pub open spec fn of_profile(profile_id: i64) -> spec_fn(Snapshot) -> bool {
    |s: Snapshot| s.profile_id == profile_id
}

/// The snapshots other than those numbered `id`.
pub open spec fn snapshot_other_than(id: i64) -> spec_fn(Snapshot) -> bool {
    |s: Snapshot| s.id != id
}

/// The items that snapshot `id` owns.
pub open spec fn owned_by(id: i64) -> spec_fn(ItemRow) -> bool {
    |row: ItemRow| row.snapshot_id == id
}

/// The items that snapshot `id` does not own.
pub open spec fn not_owned_by(id: i64) -> spec_fn(ItemRow) -> bool {
    |row: ItemRow| row.snapshot_id != id
}

/// `snapshots` with `value` written to every snapshot numbered `id`.
pub open spec fn with_value(snapshots: Seq<Snapshot>, id: i64, value: i128) -> Seq<Snapshot> {
    snapshots.map_values(
        |s: Snapshot|
            if s.id == id {
                Snapshot { value, ..s }
            } else {
                s
            },
    )
}

/// The snapshot that binding makes: numbered `id`, bound to `revision`,
/// and worth nothing yet.
pub open spec fn bound_snapshot(
    id: i64,
    profile_id: i64,
    timestamp: Timestamp,
    revision: i64,
) -> Snapshot {
    Snapshot { id, profile_id, timestamp, pricing_revision: revision, value: 0 }
}

/// The rows of `rows` that snapshot `id` does not own, in their order.
fn without_items_of(rows: Vec<ItemRow>, id: i64) -> (kept: Vec<ItemRow>)
    ensures
        kept@ == rows@.filter(not_owned_by(id)),
{
    let mut kept: Vec<ItemRow> = Vec::new();
    let ghost all: Seq<ItemRow> = rows@;
    for row in it: rows
        invariant
            it.seq() == all,
            kept@ == all.take(it.index() as int).filter(not_owned_by(id)),
    {
        proof {
            reveal(Seq::filter);
            assert(all.take(it.index() + 1).drop_last() == all.take(it.index() as int));
        }
        if row.snapshot_id != id {
            kept.push(row);
        }
    }
    assert(all.take(all.len() as int) == all);
    kept
}

impl Database {
    /// The revision to which a snapshot made now would be bound: the
    /// highest on record. Fails where no price is on record.
    pub fn current_revision(&self) -> (r: Result<i64, Error>)
        ensures
            r == match max_revision_of(self.prices@) {
                Some(revision) => Ok::<i64, Error>(revision),
                None => Err::<i64, Error>(Error::Sql(SqlFailure::RowNotFound)),
            },
    {
        match max_revision(&self.prices) {
            Some(revision) => Ok(revision),
            None => Err(Error::Sql(SqlFailure::RowNotFound)),
        }
    }

    /// Records a new snapshot of `profile_id`, bound to `revision` and
    /// worth nothing yet, and returns it.
    ///
    /// Fails, and changes nothing, where no snapshot number is left.
    pub fn insert_snapshot(&mut self, profile_id: i64, timestamp: Timestamp, revision: i64) -> (r:
        Result<Snapshot, Error>)
        ensures
            final(self).same_but_snapshots(*old(self)),
            old(self).well_formed() ==> final(self).well_formed(),
            if old(self).last_snapshot_id < i64::MAX {
                let made = bound_snapshot(
                    (old(self).last_snapshot_id + 1) as i64,
                    profile_id,
                    timestamp,
                    revision,
                );
                &&& r == Ok::<Snapshot, Error>(made)
                &&& final(self).snapshots@ == old(self).snapshots@.push(made)
                &&& final(self).last_snapshot_id == made.id
            } else {
                &&& r == Err::<Snapshot, Error>(Error::Sql(SqlFailure::Full))
                &&& *final(self) == *old(self)
            },
    {
        if self.last_snapshot_id == i64::MAX {
            return Err(Error::Sql(SqlFailure::Full));
        }
        let made = Snapshot {
            id: self.last_snapshot_id + 1,
            profile_id,
            timestamp,
            pricing_revision: revision,
            value: 0,
        };
        proof {
            if old(self).well_formed() {
                assert(old(self).snapshots@.push(made) == old(self).snapshots@ + seq![made]);
                lemma_append_numbered(
                    old(self).snapshots@,
                    seq![made],
                    snapshot_number(),
                    old(self).last_snapshot_id,
                    made.id,
                );
            }
        }
        self.snapshots.push(made);
        self.last_snapshot_id = made.id;
        Ok(made)
    }

    /// Makes a snapshot of `profile_id` at `timestamp`, bound to the
    /// highest revision on record, and returns it.
    ///
    /// Fails, and changes nothing, where no price is on record, and where
    /// no snapshot number is left.
    pub fn new_snapshot(&mut self, profile_id: i64, timestamp: Timestamp) -> (r: Result<
        Snapshot,
        Error,
    >)
        ensures
            final(self).same_but_snapshots(*old(self)),
            old(self).well_formed() ==> final(self).well_formed(),
            match max_revision_of(old(self).prices@) {
                None => {
                    &&& r == Err::<Snapshot, Error>(Error::Sql(SqlFailure::RowNotFound))
                    &&& *final(self) == *old(self)
                },
                Some(revision) => if old(self).last_snapshot_id < i64::MAX {
                    let made = bound_snapshot(
                        (old(self).last_snapshot_id + 1) as i64,
                        profile_id,
                        timestamp,
                        revision,
                    );
                    &&& r == Ok::<Snapshot, Error>(made)
                    &&& final(self).snapshots@ == old(self).snapshots@.push(made)
                    &&& final(self).last_snapshot_id == made.id
                } else {
                    &&& r == Err::<Snapshot, Error>(Error::Sql(SqlFailure::Full))
                    &&& *final(self) == *old(self)
                },
            },
    {
        match self.current_revision() {
            Err(e) => Err(e),
            Ok(revision) => self.insert_snapshot(profile_id, timestamp, revision),
        }
    }

    /// The snapshots of `profile_id`, in the order in which they were made.
    pub fn list_snapshots(&self, profile_id: i64) -> (list: Vec<Snapshot>)
        ensures
            list@ == self.snapshots@.filter(of_profile(profile_id)),
    {
        let mut list: Vec<Snapshot> = Vec::new();
        let mut k: usize = 0;
        while k < self.snapshots.len()
            invariant
                k <= self.snapshots@.len(),
                list@ == self.snapshots@.take(k as int).filter(of_profile(profile_id)),
            decreases self.snapshots@.len() - k,
        {
            proof {
                reveal(Seq::filter);
                assert(self.snapshots@.take(k + 1).drop_last() == self.snapshots@.take(k as int));
            }
            let s: Snapshot = self.snapshots[k];
            if s.profile_id == profile_id {
                list.push(s);
            }
            k = k + 1;
        }
        assert(self.snapshots@.take(k as int) == self.snapshots@);
        list
    }

    /// Writes `value` to every snapshot numbered `id`.
    pub fn write_value(&mut self, id: i64, value: i128)
        ensures
            final(self).same_but_snapshots(*old(self)),
            final(self).last_snapshot_id == old(self).last_snapshot_id,
            final(self).snapshots@ == with_value(old(self).snapshots@, id, value),
            old(self).well_formed() ==> final(self).well_formed(),
    {
        let mut k: usize = 0;
        while k < self.snapshots.len()
            invariant
                k <= self.snapshots@.len(),
                self.same_but_snapshots(*old(self)),
                self.last_snapshot_id == old(self).last_snapshot_id,
                self.snapshots@.len() == old(self).snapshots@.len(),
                forall|j: int|
                    0 <= j < k ==> self.snapshots@[j] == with_value(
                        old(self).snapshots@,
                        id,
                        value,
                    )[j],
                forall|j: int|
                    k <= j < self.snapshots@.len() ==> self.snapshots@[j] == old(
                        self,
                    ).snapshots@[j],
            decreases self.snapshots@.len() - k,
        {
            let s: Snapshot = self.snapshots[k];
            if s.id == id {
                self.snapshots.set(k, Snapshot { value, ..s });
            }
            k = k + 1;
        }
        assert(self.snapshots@ =~= with_value(old(self).snapshots@, id, value));
        proof {
            if old(self).well_formed() {
                lemma_same_numbers(
                    old(self).snapshots@,
                    self.snapshots@,
                    snapshot_number(),
                    self.last_snapshot_id,
                );
            }
        }
    }

    /// Overrides the value of `snapshot` with `value` whole Chaos Orbs,
    /// without valuing anything.
    pub fn snapshot_set_value(&mut self, snapshot: Snapshot, value: i64)
        ensures
            final(self).same_but_snapshots(*old(self)),
            final(self).last_snapshot_id == old(self).last_snapshot_id,
            final(self).snapshots@ == with_value(
                old(self).snapshots@,
                snapshot.id,
                (value * MICROS_PER_CHAOS) as i128,
            ),
            old(self).well_formed() ==> final(self).well_formed(),
    {
        let whole: i128 = value as i128;
        let amount: i128 = whole * 1_000_000;
        self.write_value(snapshot.id, amount);
    }
    /// Deletes every snapshot numbered `snapshot_id` together with the
    /// items it owns.
    pub fn delete_snapshot(&mut self, snapshot_id: i64)
        ensures
            final(self).same_but_inventory(*old(self)),
            final(self).last_snapshot_id == old(self).last_snapshot_id,
            final(self).last_item_id == old(self).last_item_id,
            final(self).items@ == old(self).items@.filter(not_owned_by(snapshot_id)),
            final(self).snapshots@ == old(self).snapshots@.filter(
                snapshot_other_than(snapshot_id),
            ),
            old(self).well_formed() ==> final(self).well_formed(),
    {
        proof {
            if old(self).well_formed() {
                lemma_filter_numbered(
                    old(self).items@,
                    item_number(),
                    old(self).last_item_id,
                    not_owned_by(snapshot_id),
                );
                lemma_filter_numbered(
                    old(self).snapshots@,
                    snapshot_number(),
                    old(self).last_snapshot_id,
                    snapshot_other_than(snapshot_id),
                );
            }
        }
        let mut rows: Vec<ItemRow> = Vec::new();
        std::mem::swap(&mut rows, &mut self.items);
        self.items = without_items_of(rows, snapshot_id);
        let mut kept: Vec<Snapshot> = Vec::new();
        let mut k: usize = 0;
        while k < self.snapshots.len()
            invariant
                k <= self.snapshots@.len(),
                self.snapshots == old(self).snapshots,
                kept@ == self.snapshots@.take(k as int).filter(snapshot_other_than(snapshot_id)),
            decreases self.snapshots@.len() - k,
        {
            proof {
                reveal(Seq::filter);
                assert(self.snapshots@.take(k + 1).drop_last() == self.snapshots@.take(k as int));
            }
            let s: Snapshot = self.snapshots[k];
            if s.id != snapshot_id {
                kept.push(s);
            }
            k = k + 1;
        }
        assert(self.snapshots@.take(k as int) == self.snapshots@);
        self.snapshots = kept;
    }

    /// The items that `snapshot` owns, in the order in which they were
    /// stored.
    pub fn snapshot_fetch_items(&self, snapshot: Snapshot) -> (items: Vec<Item>)
        ensures
            items@ == self.items@.filter(owned_by(snapshot.id)).map_values(
                |row: ItemRow| row.data,
            ),
    {
        let mut items: Vec<Item> = Vec::new();
        let mut k: usize = 0;
        while k < self.items.len()
            invariant
                k <= self.items@.len(),
                items@ == self.items@.take(k as int).filter(owned_by(snapshot.id)).map_values(
                    |row: ItemRow| row.data,
                ),
            decreases self.items@.len() - k,
        {
            proof {
                reveal(Seq::filter);
                assert(self.items@.take(k + 1).drop_last() == self.items@.take(k as int));
            }
            let row: &ItemRow = &self.items[k];
            if row.snapshot_id == snapshot.id {
                items.push(row.data.duplicate());
                assert(items@ == self.items@.take(k + 1).filter(owned_by(snapshot.id)).map_values(
                    |row: ItemRow| row.data,
                ));
            }
            k = k + 1;
        }
        assert(self.items@.take(k as int) == self.items@);
        items
    }
}

} // verus!