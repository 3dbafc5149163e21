//! The tables of the store, each an append-ordered list of rows, and the
//! last identifier handed out in each table that numbers its rows.

use crate::model::{ItemRow, Price, Profile, ProfileStashAssoc, Snapshot, Stash};
use vstd::prelude::*;

verus! {

/// The first of `rows` that `wanted` holds of, and none where it holds of
/// no row.
pub open spec fn first_where<T>(rows: Seq<T>, wanted: spec_fn(T) -> bool) -> Option<T>
    decreases rows.len(),
{
    if rows.len() == 0 {
        None
    } else if wanted(rows.first()) {
        Some(rows.first())
    } else {
        first_where(rows.drop_first(), wanted)
    }
}

/// The first row that is wanted is a row that is wanted, and there is
/// none exactly where no row is wanted.
pub proof fn lemma_first_where<T>(rows: Seq<T>, wanted: spec_fn(T) -> bool)
    ensures
        first_where(rows, wanted) matches Some(row) ==> wanted(row) && rows.contains(row),
        first_where(rows, wanted) is None <==> forall|i: int|
            0 <= i < rows.len() ==> !wanted(#[trigger] rows[i]),
    decreases rows.len(),
{
    if rows.len() > 0 {
        let rest = rows.drop_first();
        lemma_first_where(rest, wanted);
        if wanted(rows.first()) {
            assert(rows[0] == rows.first());
        } else {
            if first_where(rest, wanted) is Some {
                let row = first_where(rest, wanted)->0;
                let i = choose|i: int| 0 <= i < rest.len() && rest[i] == row;
                assert(rows[i + 1] == row);
            } else {
                assert forall|i: int| 0 <= i < rows.len() implies !wanted(#[trigger] rows[i]) by {
                    if i > 0 {
                        assert(rest[i - 1] == rows[i]);
                    }
                }
            }
            if exists|i: int| 0 <= i < rest.len() && wanted(#[trigger] rest[i]) {
                let i = choose|i: int| 0 <= i < rest.len() && wanted(#[trigger] rest[i]);
                assert(rows[i + 1] == rest[i]);
            }
        }
    }
}

/// Whether the numbers of `rows` rise from each row to the next and none
/// exceeds `last`.
pub open spec fn numbered_up_to<T>(rows: Seq<T>, number: spec_fn(T) -> i64, last: i64) -> bool {
    &&& forall|i: int| 0 <= i < rows.len() ==> number(#[trigger] rows[i]) <= last
    &&& forall|i: int, j: int|
        0 <= i < j < rows.len() ==> number(#[trigger] rows[i]) < number(#[trigger] rows[j])
}

/// Rows that are left out leave the numbering of the others intact, and
/// every row that is kept is one of the rows.
pub proof fn lemma_filter_numbered<T>(
    rows: Seq<T>,
    number: spec_fn(T) -> i64,
    last: i64,
    keep: spec_fn(T) -> bool,
)
    requires
        numbered_up_to(rows, number, last),
    ensures
        numbered_up_to(rows.filter(keep), number, last),
        forall|i: int|
            0 <= i < rows.filter(keep).len() ==> rows.contains(#[trigger] rows.filter(keep)[i]),
    decreases rows.len(),
{
    reveal(Seq::filter);
    if rows.len() > 0 {
        let front = rows.drop_last();
        let newest = rows.last();
        let kept = rows.filter(keep);
        let before = front.filter(keep);
        assert forall|i: int| 0 <= i < front.len() implies #[trigger] front[i] == rows[i] by {}
        lemma_filter_numbered(front, number, last, keep);
        assert forall|i: int| 0 <= i < before.len() implies rows.contains(#[trigger] before[i])
            && number(before[i]) < number(newest) by {
            assert(front.contains(before[i]));
            let k = choose|k: int| 0 <= k < front.len() && front[k] == before[i];
            assert(rows[k] == before[i]);
            assert(number(rows[k]) < number(rows[rows.len() - 1]));
        }
        assert(rows[rows.len() - 1] == newest);
        assert forall|i: int| 0 <= i < kept.len() implies rows.contains(#[trigger] kept[i])
            && number(kept[i]) <= last by {
            if i < before.len() {
                assert(kept[i] == before[i]);
            } else {
                assert(kept[i] == newest);
            }
        }
        assert forall|i: int, j: int| 0 <= i < j < kept.len() implies number(#[trigger] kept[i])
            < number(#[trigger] kept[j]) by {
            assert(kept[i] == before[i]);
            if j < before.len() {
                assert(kept[j] == before[j]);
            } else {
                assert(kept[j] == newest);
            }
        }
    }
}

/// Rows numbered on from `last` keep the numbering intact when they are
/// appended.
pub proof fn lemma_append_numbered<T>(
    rows: Seq<T>,
    more: Seq<T>,
    number: spec_fn(T) -> i64,
    last: i64,
    new_last: i64,
)
    requires
        numbered_up_to(rows, number, last),
        new_last == last + more.len(),
        forall|k: int| 0 <= k < more.len() ==> number(#[trigger] more[k]) == last + k + 1,
    ensures
        numbered_up_to(rows + more, number, new_last),
{
    let all = rows + more;
    assert forall|i: int| 0 <= i < all.len() implies number(#[trigger] all[i]) <= new_last by {
        if i < rows.len() {
            assert(all[i] == rows[i]);
        } else {
            assert(all[i] == more[i - rows.len()]);
        }
    }
    assert forall|i: int, j: int| 0 <= i < j < all.len() implies number(#[trigger] all[i])
        < number(#[trigger] all[j]) by {
        if i < rows.len() {
            assert(all[i] == rows[i]);
        } else {
            assert(all[i] == more[i - rows.len()]);
        }
        if j < rows.len() {
            assert(all[j] == rows[j]);
        } else {
            assert(all[j] == more[j - rows.len()]);
        }
    }
}

/// Rows rewritten in place keep the numbering intact where each keeps
/// its number.
pub proof fn lemma_same_numbers<T>(
    before: Seq<T>,
    after: Seq<T>,
    number: spec_fn(T) -> i64,
    last: i64,
)
    requires
        numbered_up_to(before, number, last),
        after.len() == before.len(),
        forall|i: int| 0 <= i < before.len() ==> number(#[trigger] after[i]) == number(before[i]),
    ensures
        numbered_up_to(after, number, last),
{
    assert forall|i: int, j: int| 0 <= i < j < after.len() implies number(#[trigger] after[i])
        < number(#[trigger] after[j]) by {
        assert(number(before[i]) < number(before[j]));
    }
}

/// Whether no two of `stashes` have the same identifier.
pub open spec fn distinct_identifiers(stashes: Seq<Stash>) -> bool {
    forall|i: int, j: int|
        0 <= i < j < stashes.len() ==> (#[trigger] stashes[i]).id@ != (#[trigger] stashes[j]).id@
}

/// The number of a price.
pub open spec fn price_number() -> spec_fn(Price) -> i64 {
    |p: Price| p.id
}

/// The number of a snapshot.
pub open spec fn snapshot_number() -> spec_fn(Snapshot) -> i64 {
    |s: Snapshot| s.id
}

/// The number of a stored item.
pub open spec fn item_number() -> spec_fn(ItemRow) -> i64 {
    |row: ItemRow| row.id
}

/// The number of a profile.
pub open spec fn profile_number() -> spec_fn(Profile) -> i64 {
    |p: Profile| p.id
}

/// The whole content of the store.
pub struct Database {
    pub prices: Vec<Price>,
    pub snapshots: Vec<Snapshot>,
    pub items: Vec<ItemRow>,
    pub profiles: Vec<Profile>,
    pub stashes: Vec<Stash>,
    pub assocs: Vec<ProfileStashAssoc>,
    pub last_price_id: i64,
    pub last_snapshot_id: i64,
    pub last_item_id: i64,
    pub last_profile_id: i64,
}

impl Database {
    /// Whether no table holds a row and no identifier has been handed out.
    pub open spec fn is_empty(self) -> bool {
        &&& self.prices@.len() == 0
        &&& self.snapshots@.len() == 0
        &&& self.items@.len() == 0
        &&& self.profiles@.len() == 0
        &&& self.stashes@.len() == 0
        &&& self.assocs@.len() == 0
        &&& self.last_price_id == 0
        &&& self.last_snapshot_id == 0
        &&& self.last_item_id == 0
        &&& self.last_profile_id == 0
    }

    /// Whether every table that numbers its rows holds them in rising
    /// order of their numbers, none above the last number handed out: no
    /// number stands twice, and none is handed out again; and whether
    /// there is one stash at most for each identifier.
    pub open spec fn well_formed(self) -> bool {
        &&& distinct_identifiers(self.stashes@)
        &&& numbered_up_to(self.prices@, price_number(), self.last_price_id)
        &&& numbered_up_to(self.snapshots@, snapshot_number(), self.last_snapshot_id)
        &&& numbered_up_to(self.items@, item_number(), self.last_item_id)
        &&& numbered_up_to(self.profiles@, profile_number(), self.last_profile_id)
    }

    /// Whether `self` and `other` agree on everything but prices.
    pub open spec fn same_but_prices(self, other: Database) -> bool {
        &&& self.snapshots == other.snapshots
        &&& self.items == other.items
        &&& self.profiles == other.profiles
        &&& self.stashes == other.stashes
        &&& self.assocs == other.assocs
        &&& self.last_snapshot_id == other.last_snapshot_id
        &&& self.last_item_id == other.last_item_id
        &&& self.last_profile_id == other.last_profile_id
    }

    /// Whether `self` and `other` agree on everything but snapshots.
    pub open spec fn same_but_snapshots(self, other: Database) -> bool {
        &&& self.prices == other.prices
        &&& self.items == other.items
        &&& self.profiles == other.profiles
        &&& self.stashes == other.stashes
        &&& self.assocs == other.assocs
        &&& self.last_price_id == other.last_price_id
        &&& self.last_item_id == other.last_item_id
        &&& self.last_profile_id == other.last_profile_id
    }

    /// Whether `self` and `other` agree on everything but snapshots and items.
    pub open spec fn same_but_inventory(self, other: Database) -> bool {
        &&& self.prices == other.prices
        &&& self.profiles == other.profiles
        &&& self.stashes == other.stashes
        &&& self.assocs == other.assocs
        &&& self.last_price_id == other.last_price_id
        &&& self.last_profile_id == other.last_profile_id
    }

    /// Whether `self` and `other` agree on prices, snapshots, items and stashes.
    pub open spec fn same_but_profiles(self, other: Database) -> bool {
        &&& self.prices == other.prices
        &&& self.snapshots == other.snapshots
        &&& self.items == other.items
        &&& self.stashes == other.stashes
        &&& self.last_price_id == other.last_price_id
        &&& self.last_snapshot_id == other.last_snapshot_id
        &&& self.last_item_id == other.last_item_id
    }

    /// Whether `self` and `other` agree on everything but stashes.
    pub open spec fn same_but_stashes(self, other: Database) -> bool {
        &&& self.prices == other.prices
        &&& self.snapshots == other.snapshots
        &&& self.items == other.items
        &&& self.profiles == other.profiles
        &&& self.assocs == other.assocs
        &&& self.last_price_id == other.last_price_id
        &&& self.last_snapshot_id == other.last_snapshot_id
        &&& self.last_item_id == other.last_item_id
        &&& self.last_profile_id == other.last_profile_id
    }

    /// A store without rows.
    pub fn new() -> (db: Database)
        ensures
            db.is_empty(),
            db.well_formed(),
    {
        Database {
            prices: Vec::new(),
            snapshots: Vec::new(),
            items: Vec::new(),
            profiles: Vec::new(),
            stashes: Vec::new(),
            assocs: Vec::new(),
            last_price_id: 0,
            last_snapshot_id: 0,
            last_item_id: 0,
            last_profile_id: 0,
        }
    }
}

} // verus!
