//! Valuing a snapshot: its items are stored with what each stack is worth,
//! the total is written to the snapshot, and the total can be read against
//! the price of the Divine Orb.

use crate::catalog::{find_price, price_found};
use crate::error::{Error, SqlFailure};
use crate::model::{Item, ItemRow, ItemWithPrice, Profile, Ratio, Snapshot, UseEffectResponse};
use crate::pricing::{divine_orb, total_of};
use crate::snapshots::{owned_by, with_value};
use crate::store::{first_where, item_number, lemma_append_numbered, Database};
use crate::valuation::{item_values, valuate};
use vstd::prelude::*;

verus! {

/// The profiles numbered `id`.
pub open spec fn profile_numbered(id: i64) -> spec_fn(Profile) -> bool {
    |p: Profile| p.id == id
}

/// The snapshots numbered `id`.
pub open spec fn snapshot_numbered(id: i64) -> spec_fn(Snapshot) -> bool {
    |s: Snapshot| s.id == id
}

/// The rows under which `items` are stored: in their order, numbered on
/// from `last_id`, each with what its stack is worth.
pub open spec fn item_rows(
    values: Seq<int>,
    items: Seq<Item>,
    snapshot_id: i64,
    stash_id: String,
    last_id: int,
) -> Seq<ItemRow> {
    Seq::new(
        items.len(),
        |k: int|
            ItemRow {
                id: (last_id + k + 1) as i64,
                snapshot_id,
                stash_id,
                data: items[k],
                value: values[k] as i128,
            },
    )
}

/// A stored item with what its stack is worth.
pub open spec fn priced(row: ItemRow) -> ItemWithPrice {
    ItemWithPrice { item: row.data, price: row.value }
}

/// Writing a value to the snapshots numbered `id` leaves the first of
/// them first, now with that value.
pub proof fn lemma_written_value_is_read(snapshots: Seq<Snapshot>, id: i64, value: i128)
    ensures
        first_where(with_value(snapshots, id, value), snapshot_numbered(id)) == match first_where(
            snapshots,
            snapshot_numbered(id),
        ) {
            Some(s) => Some(Snapshot { value, ..s }),
            None => None,
        },
    decreases snapshots.len(),
{
    if snapshots.len() > 0 {
        lemma_written_value_is_read(snapshots.drop_first(), id, value);
        assert(with_value(snapshots, id, value).drop_first() == with_value(
            snapshots.drop_first(),
            id,
            value,
        ));
    }
}

impl Database {
    /// The first profile numbered `id`.
    pub fn find_profile(&self, id: i64) -> (found: Option<&Profile>)
        ensures
            match found {
                Some(p) => first_where(self.profiles@, profile_numbered(id)) == Some(*p),
                None => first_where(self.profiles@, profile_numbered(id)) is None,
            },
    {
        let mut k: usize = 0;
        assert(self.profiles@.skip(0) == self.profiles@);
        while k < self.profiles.len()
            invariant
                k <= self.profiles@.len(),
                first_where(self.profiles@, profile_numbered(id)) == first_where(
                    self.profiles@.skip(k as int),
                    profile_numbered(id),
                ),
            decreases self.profiles@.len() - k,
        {
            assert(self.profiles@.skip(k as int).drop_first() == self.profiles@.skip(k + 1));
            if self.profiles[k].id == id {
                return Some(&self.profiles[k]);
            }
            k = k + 1;
        }
        None
    }

    /// The value of the first snapshot numbered `id`.
    pub fn stored_value(&self, id: i64) -> (found: Option<i128>)
        ensures
            found == match first_where(self.snapshots@, snapshot_numbered(id)) {
                Some(s) => Some(s.value),
                None => None,
            },
    {
        let mut k: usize = 0;
        assert(self.snapshots@.skip(0) == self.snapshots@);
        while k < self.snapshots.len()
            invariant
                k <= self.snapshots@.len(),
                first_where(self.snapshots@, snapshot_numbered(id)) == first_where(
                    self.snapshots@.skip(k as int),
                    snapshot_numbered(id),
                ),
            decreases self.snapshots@.len() - k,
        {
            assert(self.snapshots@.skip(k as int).drop_first() == self.snapshots@.skip(k + 1));
            if self.snapshots[k].id == id {
                return Some(self.snapshots[k].value);
            }
            k = k + 1;
        }
        None
    }
    /// Stores `items` under `snapshot` as found in `stash_id`, each with
    /// what its stack is worth at the snapshot's revision in the pricing
    /// league of the snapshot's profile; writes their total to the
    /// snapshot; and returns the total as the store then holds it.
    ///
    /// Fails, and changes nothing, where the snapshot's profile is not on
    /// record, and where fewer item numbers are left than there are items.
    /// Fails after storing the items where the snapshot itself is not on
    /// record.
    pub fn add_items_to_snapshot(
        &mut self,
        snapshot: Snapshot,
        items: &Vec<Item>,
        stash_id: String,
    ) -> (r: Result<i128, Error>)
        ensures
            final(self).same_but_inventory(*old(self)),
            final(self).last_snapshot_id == old(self).last_snapshot_id,
            old(self).well_formed() ==> final(self).well_formed(),
            match first_where(old(self).profiles@, profile_numbered(snapshot.profile_id)) {
                None => {
                    &&& r == Err::<i128, Error>(Error::Sql(SqlFailure::RowNotFound))
                    &&& *final(self) == *old(self)
                },
                Some(profile) => if old(self).last_item_id + items@.len() > i64::MAX {
                    &&& r == Err::<i128, Error>(Error::Sql(SqlFailure::Full))
                    &&& *final(self) == *old(self)
                } else {
                    let values = item_values(
                        old(self).prices@,
                        snapshot.pricing_revision,
                        profile.pricing_league@,
                        items@,
                    );
                    let total = total_of(values) as i128;
                    &&& final(self).items@ == old(self).items@ + item_rows(
                        values,
                        items@,
                        snapshot.id,
                        stash_id,
                        old(self).last_item_id as int,
                    )
                    &&& final(self).last_item_id == old(self).last_item_id + items@.len()
                    &&& final(self).snapshots@ == with_value(
                        old(self).snapshots@,
                        snapshot.id,
                        total,
                    )
                    &&& r == match first_where(
                        old(self).snapshots@,
                        snapshot_numbered(snapshot.id),
                    ) {
                        Some(_) => Ok::<i128, Error>(total),
                        None => Err::<i128, Error>(Error::Sql(SqlFailure::RowNotFound)),
                    }
                },
            },
    {
        let league: String = match self.find_profile(snapshot.profile_id) {
            Some(profile) => profile.pricing_league.clone(),
            None => {
                return Err(Error::Sql(SqlFailure::RowNotFound));
            },
        };
        if (self.last_item_id as i128) + (items.len() as i128) > (i64::MAX as i128) {
            return Err(Error::Sql(SqlFailure::Full));
        }
        let (values, total) = valuate(
            &self.prices,
            snapshot.pricing_revision,
            league.as_str(),
            items,
        );
        let ghost worth: Seq<int> = item_values(
            self.prices@,
            snapshot.pricing_revision,
            league@,
            items@,
        );
        let ghost last: int = self.last_item_id as int;
        let mut id: i64 = self.last_item_id;
        let mut k: usize = 0;
        while k < items.len()
            invariant
                k <= items@.len(),
                last + items@.len() <= i64::MAX,
                id == last + k,
                last == old(self).last_item_id,
                values@.len() == items@.len(),
                worth.len() == items@.len(),
                forall|j: int| 0 <= j < items@.len() ==> #[trigger] values@[j] == worth[j],
                self.same_but_inventory(*old(self)),
                self.snapshots == old(self).snapshots,
                self.last_snapshot_id == old(self).last_snapshot_id,
                self.items@ == old(self).items@ + item_rows(
                    worth,
                    items@,
                    snapshot.id,
                    stash_id,
                    last,
                ).take(k as int),
            decreases items@.len() - k,
        {
            id = id + 1;
            self.items.push(
                ItemRow {
                    id,
                    snapshot_id: snapshot.id,
                    stash_id: stash_id.clone(),
                    data: items[k].duplicate(),
                    value: values[k],
                },
            );
            assert(item_rows(worth, items@, snapshot.id, stash_id, last).take(k + 1)
                == item_rows(worth, items@, snapshot.id, stash_id, last).take(k as int).push(
                item_rows(worth, items@, snapshot.id, stash_id, last)[k as int],
            ));
            k = k + 1;
        }
        assert(item_rows(worth, items@, snapshot.id, stash_id, last).take(k as int) == item_rows(
            worth,
            items@,
            snapshot.id,
            stash_id,
            last,
        ));
        self.last_item_id = id;
        proof {
            lemma_written_value_is_read(self.snapshots@, snapshot.id, total);
            if old(self).well_formed() {
                lemma_append_numbered(
                    old(self).items@,
                    item_rows(worth, items@, snapshot.id, stash_id, last),
                    item_number(),
                    old(self).last_item_id,
                    id,
                );
            }
        }
        self.write_value(snapshot.id, total);
        match self.stored_value(snapshot.id) {
            Some(value) => Ok(value),
            None => Err(Error::Sql(SqlFailure::RowNotFound)),
        }
    }
    /// The items that `snapshot` owns, each with what its stack is worth,
    /// the snapshot's value, and that value against the price of one Divine
    /// Orb at the snapshot's revision in the pricing league of its profile.
    ///
    /// Fails where the snapshot's profile is not on record, and where no
    /// observation at that revision in that league is named Divine Orb.
    pub fn basically_this_use_effect(&self, snapshot: Snapshot) -> (r: Result<
        UseEffectResponse,
        Error,
    >)
        ensures
            match first_where(self.profiles@, profile_numbered(snapshot.profile_id)) {
                None => r == Err::<UseEffectResponse, Error>(Error::Sql(SqlFailure::RowNotFound)),
                Some(profile) => match price_found(
                    self.prices@,
                    divine_orb(),
                    true,
                    snapshot.pricing_revision,
                    Some(profile.pricing_league@),
                ) {
                    None => r == Err::<UseEffectResponse, Error>(
                        Error::Sql(SqlFailure::RowNotFound),
                    ),
                    Some(divine) => {
                        &&& r matches Ok(response)
                        &&& response.items@ == self.items@.filter(
                            owned_by(snapshot.id),
                        ).map_values(|row: ItemRow| priced(row))
                        &&& response.total_chaos == snapshot.value
                        &&& response.total_div == (Ratio {
                            numerator: snapshot.value,
                            denominator: divine,
                        })
                    },
                },
            },
    {
        let profile: &Profile = match self.find_profile(snapshot.profile_id) {
            Some(profile) => profile,
            None => {
                return Err(Error::Sql(SqlFailure::RowNotFound));
            },
        };
        let mut items: Vec<ItemWithPrice> = Vec::new();
        let mut k: usize = 0;
        while k < self.items.len()
            invariant
                k <= self.items@.len(),
                items@ == self.items@.take(k as int).filter(owned_by(snapshot.id)).map_values(
                    |row: ItemRow| priced(row),
                ),
            decreases self.items@.len() - k,
        {
            proof {
                reveal(Seq::filter);
                assert(self.items@.take(k + 1).drop_last() == self.items@.take(k as int));
            }
            let row: &ItemRow = &self.items[k];
            if row.snapshot_id == snapshot.id {
                items.push(ItemWithPrice { item: row.data.duplicate(), price: row.value });
                assert(items@ == self.items@.take(k + 1).filter(owned_by(snapshot.id)).map_values(
                    |row: ItemRow| priced(row),
                ));
            }
            k = k + 1;
        }
        assert(self.items@.take(k as int) == self.items@);
        let divine: i64 = match find_price(
            &self.prices,
            "Divine Orb",
            true,
            snapshot.pricing_revision,
            Some(profile.pricing_league.as_str()),
        ) {
            Some(price) => price,
            None => {
                return Err(Error::Sql(SqlFailure::RowNotFound));
            },
        };
        Ok(
            UseEffectResponse {
                items,
                total_chaos: snapshot.value,
                total_div: Ratio { numerator: snapshot.value, denominator: divine },
            },
        )
    }
}

} // verus!