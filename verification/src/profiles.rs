//! Profiles and the stash tabs linked to them.

use crate::error::{Error, SqlFailure};
use crate::inventory::profile_numbered;
use crate::model::{ItemRow, Profile, ProfileStashAssoc, ProfileWithStashes, Snapshot};
use crate::store::{
    first_where, item_number, lemma_append_numbered, lemma_filter_numbered, lemma_same_numbers,
    profile_number, snapshot_number, Database,
};
use vstd::prelude::*;

verus! {

/// The links of profile `id`.
pub open spec fn linked_to(id: i64) -> spec_fn(ProfileStashAssoc) -> bool {
    |a: ProfileStashAssoc| a.profile_id == id
}

/// The links of profiles other than `id`.
pub open spec fn not_linked_to(id: i64) -> spec_fn(ProfileStashAssoc) -> bool {
    |a: ProfileStashAssoc| a.profile_id != id
}

/// The profiles other than those numbered `id`.
pub open spec fn profile_other_than(id: i64) -> spec_fn(Profile) -> bool {
    |p: Profile| p.id != id
}

/// The links that tie profile `id` to each of `tabs`, in their order.
pub open spec fn links_of(id: i64, tabs: Seq<String>) -> Seq<ProfileStashAssoc> {
    tabs.map_values(|tab: String| ProfileStashAssoc { profile_id: id, stash_id: tab })
}

/// The stash identifiers that `assocs` link to profile `id`, in their order.
pub open spec fn tabs_of(assocs: Seq<ProfileStashAssoc>, id: i64) -> Seq<String> {
    assocs.filter(linked_to(id)).map_values(|a: ProfileStashAssoc| a.stash_id)
}

/// `profiles` with `profile` in place of every profile that has its number.
pub open spec fn with_profile(profiles: Seq<Profile>, profile: Profile) -> Seq<Profile> {
    profiles.map_values(
        |p: Profile|
            if p.id == profile.id {
                profile
            } else {
                p
            },
    )
}

/// Whether `snapshot_id` is the number of a snapshot of profile `profile_id`.
pub open spec fn is_snapshot_of(snapshots: Seq<Snapshot>, profile_id: i64, snapshot_id: i64) -> bool {
    exists|i: int|
        0 <= i < snapshots.len() && (#[trigger] snapshots[i]).profile_id == profile_id
            && snapshots[i].id == snapshot_id
}

/// The snapshots that do not share a number with a snapshot of `profile_id`.
pub open spec fn snapshot_outside(snapshots: Seq<Snapshot>, profile_id: i64) -> spec_fn(
    Snapshot,
) -> bool {
    |s: Snapshot| !is_snapshot_of(snapshots, profile_id, s.id)
}

/// The items that no snapshot of `profile_id` owns.
pub open spec fn item_outside(snapshots: Seq<Snapshot>, profile_id: i64) -> spec_fn(
    ItemRow,
) -> bool {
    |row: ItemRow| !is_snapshot_of(snapshots, profile_id, row.snapshot_id)
}

/// Whether `snapshot_id` is the number of a snapshot of `profile_id`.
fn has_snapshot(snapshots: &Vec<Snapshot>, profile_id: i64, snapshot_id: i64) -> (b: bool)
    ensures
        b == is_snapshot_of(snapshots@, profile_id, snapshot_id),
{
    let mut k: usize = 0;
    while k < snapshots.len()
        invariant
            k <= snapshots@.len(),
            forall|i: int|
                0 <= i < k ==> !((#[trigger] snapshots@[i]).profile_id == profile_id
                    && snapshots@[i].id == snapshot_id),
        decreases snapshots@.len() - k,
    {
        if snapshots[k].profile_id == profile_id && snapshots[k].id == snapshot_id {
            return true;
        }
        k = k + 1;
    }
    false
}

/// The links of `links` that do not belong to profile `id`, in their order.
fn without_links_of(links: Vec<ProfileStashAssoc>, id: i64) -> (kept: Vec<ProfileStashAssoc>)
    ensures
        kept@ == links@.filter(not_linked_to(id)),
{
    let mut kept: Vec<ProfileStashAssoc> = Vec::new();
    let ghost all: Seq<ProfileStashAssoc> = links@;
    for link in it: links
        invariant
            it.seq() == all,
            kept@ == all.take(it.index() as int).filter(not_linked_to(id)),
    {
        proof {
            reveal(Seq::filter);
            assert(all.take(it.index() + 1).drop_last() == all.take(it.index() as int));
        }
        if link.profile_id != id {
            kept.push(link);
        }
    }
    assert(all.take(all.len() as int) == all);
    kept
}

/// The profiles of `profiles` that are not numbered `id`, in their order.
fn without_profile(profiles: Vec<Profile>, id: i64) -> (kept: Vec<Profile>)
    ensures
        kept@ == profiles@.filter(profile_other_than(id)),
{
    let mut kept: Vec<Profile> = Vec::new();
    let ghost all: Seq<Profile> = profiles@;
    for profile in it: profiles
        invariant
            it.seq() == all,
            kept@ == all.take(it.index() as int).filter(profile_other_than(id)),
    {
        proof {
            reveal(Seq::filter);
            assert(all.take(it.index() + 1).drop_last() == all.take(it.index() as int));
        }
        if profile.id != id {
            kept.push(profile);
        }
    }
    assert(all.take(all.len() as int) == all);
    kept
}

/// The items of `rows` that no snapshot of `profile_id` owns, in their order.
fn without_items_of_profile(rows: Vec<ItemRow>, snapshots: &Vec<Snapshot>, profile_id: i64) -> (kept:
    Vec<ItemRow>)
    ensures
        kept@ == rows@.filter(item_outside(snapshots@, profile_id)),
{
    let mut kept: Vec<ItemRow> = Vec::new();
    let ghost all: Seq<ItemRow> = rows@;
    for row in it: rows
        invariant
            it.seq() == all,
            kept@ == all.take(it.index() as int).filter(item_outside(snapshots@, profile_id)),
    {
        proof {
            reveal(Seq::filter);
            assert(all.take(it.index() + 1).drop_last() == all.take(it.index() as int));
        }
        if !has_snapshot(snapshots, profile_id, row.snapshot_id) {
            kept.push(row);
        }
    }
    assert(all.take(all.len() as int) == all);
    kept
}

impl Database {
    /// Links profile `id` to each of `tabs`.
    fn link_tabs(&mut self, id: i64, tabs: &Vec<String>)
        ensures
            final(self).same_but_profiles(*old(self)),
            final(self).profiles == old(self).profiles,
            final(self).last_profile_id == old(self).last_profile_id,
            final(self).assocs@ == old(self).assocs@ + links_of(id, tabs@),
            old(self).well_formed() ==> final(self).well_formed(),
    {
        let mut k: usize = 0;
        while k < tabs.len()
            invariant
                k <= tabs@.len(),
                self.same_but_profiles(*old(self)),
                self.profiles == old(self).profiles,
                self.last_profile_id == old(self).last_profile_id,
                old(self).well_formed() ==> self.well_formed(),
                self.assocs@ == old(self).assocs@ + links_of(id, tabs@).take(k as int),
            decreases tabs@.len() - k,
        {
            self.assocs.push(ProfileStashAssoc { profile_id: id, stash_id: tabs[k].clone() });
            assert(links_of(id, tabs@).take(k + 1) == links_of(id, tabs@).take(k as int).push(
                links_of(id, tabs@)[k as int],
            ));
            k = k + 1;
        }
        assert(links_of(id, tabs@).take(k as int) == links_of(id, tabs@));
    }

    /// Records a new profile linked to each of `stash_tabs`, and returns it.
    ///
    /// Fails, and changes nothing, where no profile number is left.
    pub fn create_profile(
        &mut self,
        profile_name: String,
        stash_tabs: &Vec<String>,
        league_id: String,
        pricing_league: String,
    ) -> (r: Result<Profile, Error>)
        ensures
            final(self).same_but_profiles(*old(self)),
            old(self).well_formed() ==> final(self).well_formed(),
            if old(self).last_profile_id < i64::MAX {
                let made = Profile {
                    id: (old(self).last_profile_id + 1) as i64,
                    name: profile_name,
                    league_id,
                    pricing_league,
                };
                &&& r == Ok::<Profile, Error>(made)
                &&& final(self).profiles@ == old(self).profiles@.push(made)
                &&& final(self).last_profile_id == made.id
                &&& final(self).assocs@ == old(self).assocs@ + links_of(made.id, stash_tabs@)
            } else {
                &&& r == Err::<Profile, Error>(Error::Sql(SqlFailure::Full))
                &&& *final(self) == *old(self)
            },
    {
        if self.last_profile_id == i64::MAX {
            return Err(Error::Sql(SqlFailure::Full));
        }
        let made = Profile {
            id: self.last_profile_id + 1,
            name: profile_name,
            league_id,
            pricing_league,
        };
        proof {
            if old(self).well_formed() {
                assert(old(self).profiles@.push(made) == old(self).profiles@ + seq![made]);
                lemma_append_numbered(
                    old(self).profiles@,
                    seq![made],
                    profile_number(),
                    old(self).last_profile_id,
                    made.id,
                );
            }
        }
        self.profiles.push(made.duplicate());
        self.last_profile_id = made.id;
        self.link_tabs(made.id, stash_tabs);
        Ok(made)
    }

    /// The stash identifiers linked to profile `id`, in the order in which
    /// they were linked.
    pub fn tabs_linked_to(&self, id: i64) -> (tabs: Vec<String>)
        ensures
            tabs@ == tabs_of(self.assocs@, id),
    {
        let mut tabs: Vec<String> = Vec::new();
        let mut k: usize = 0;
        while k < self.assocs.len()
            invariant
                k <= self.assocs@.len(),
                tabs@ == tabs_of(self.assocs@.take(k as int), id),
            decreases self.assocs@.len() - k,
        {
            proof {
                reveal(Seq::filter);
                assert(self.assocs@.take(k + 1).drop_last() == self.assocs@.take(k as int));
            }
            let link: &ProfileStashAssoc = &self.assocs[k];
            if link.profile_id == id {
                tabs.push(link.stash_id.clone());
                assert(tabs@ == tabs_of(self.assocs@.take(k + 1), id));
            }
            k = k + 1;
        }
        assert(self.assocs@.take(k as int) == self.assocs@);
        tabs
    }

    /// Every profile on record with the stash tabs linked to it, in the
    /// order in which the profiles were made.
    pub fn get_profiles(&self) -> (list: Vec<ProfileWithStashes>)
        ensures
            list@.len() == self.profiles@.len(),
            forall|k: int|
                0 <= k < list@.len() ==> {
                    &&& (#[trigger] list@[k]).profile == self.profiles@[k]
                    &&& list@[k].stashes@ == tabs_of(self.assocs@, self.profiles@[k].id)
                },
    {
        let mut list: Vec<ProfileWithStashes> = Vec::new();
        let mut k: usize = 0;
        while k < self.profiles.len()
            invariant
                k <= self.profiles@.len(),
                list@.len() == k,
                forall|j: int|
                    0 <= j < k ==> {
                        &&& (#[trigger] list@[j]).profile == self.profiles@[j]
                        &&& list@[j].stashes@ == tabs_of(self.assocs@, self.profiles@[j].id)
                    },
            decreases self.profiles@.len() - k,
        {
            let profile: Profile = self.profiles[k].duplicate();
            let stashes: Vec<String> = self.tabs_linked_to(profile.id);
            list.push(ProfileWithStashes { profile, stashes });
            k = k + 1;
        }
        list
    }
    /// Rewrites the profile that has the number of `profile` and links it
    /// to `stash_tabs` in place of the tabs it was linked to; returns the
    /// profile as written, with its tabs.
    ///
    /// Fails, and changes nothing, where no profile has that number.
    pub fn update_profile(&mut self, profile: Profile, stash_tabs: Vec<String>) -> (r: Result<
        ProfileWithStashes,
        Error,
    >)
        ensures
            final(self).same_but_profiles(*old(self)),
            final(self).last_profile_id == old(self).last_profile_id,
            old(self).well_formed() ==> final(self).well_formed(),
            match first_where(old(self).profiles@, profile_numbered(profile.id)) {
                None => {
                    &&& r == Err::<ProfileWithStashes, Error>(Error::Sql(SqlFailure::RowNotFound))
                    &&& *final(self) == *old(self)
                },
                Some(_) => {
                    &&& r == Ok::<ProfileWithStashes, Error>(
                        ProfileWithStashes { profile, stashes: stash_tabs },
                    )
                    &&& final(self).profiles@ == with_profile(old(self).profiles@, profile)
                    &&& final(self).assocs@ == old(self).assocs@.filter(
                        not_linked_to(profile.id),
                    ) + links_of(profile.id, stash_tabs@)
                },
            },
    {
        proof {
            crate::store::lemma_first_where(self.profiles@, profile_numbered(profile.id));
        }
        let mut found: bool = false;
        let mut k: usize = 0;
        while k < self.profiles.len()
            invariant
                k <= self.profiles@.len(),
                self.same_but_profiles(*old(self)),
                self.assocs == old(self).assocs,
                self.last_profile_id == old(self).last_profile_id,
                self.profiles@.len() == old(self).profiles@.len(),
                found == exists|i: int|
                    0 <= i < k && (#[trigger] old(self).profiles@[i]).id == profile.id,
                !found ==> *self == *old(self),
                forall|j: int|
                    0 <= j < k ==> #[trigger] self.profiles@[j] == with_profile(
                        old(self).profiles@,
                        profile,
                    )[j],
                forall|j: int|
                    k <= j < self.profiles@.len() ==> #[trigger] self.profiles@[j] == old(
                        self,
                    ).profiles@[j],
            decreases self.profiles@.len() - k,
        {
            if self.profiles[k].id == profile.id {
                self.profiles.set(k, profile.duplicate());
                found = true;
            }
            k = k + 1;
        }
        if !found {
            return Err(Error::Sql(SqlFailure::RowNotFound));
        }
        assert(self.profiles@ =~= with_profile(old(self).profiles@, profile));
        proof {
            if old(self).well_formed() {
                lemma_same_numbers(
                    old(self).profiles@,
                    self.profiles@,
                    profile_number(),
                    self.last_profile_id,
                );
            }
        }
        let mut links: Vec<ProfileStashAssoc> = Vec::new();
        std::mem::swap(&mut links, &mut self.assocs);
        self.assocs = without_links_of(links, profile.id);
        self.link_tabs(profile.id, &stash_tabs);
        Ok(ProfileWithStashes { profile, stashes: stash_tabs })
    }

    /// Deletes every profile numbered `profile_id`, the snapshots of that
    /// profile, and the items that those snapshots own.
    pub fn delete_profile(&mut self, profile_id: i64)
        ensures
            final(self).prices == old(self).prices,
            final(self).stashes == old(self).stashes,
            final(self).assocs == old(self).assocs,
            final(self).last_price_id == old(self).last_price_id,
            final(self).last_snapshot_id == old(self).last_snapshot_id,
            final(self).last_item_id == old(self).last_item_id,
            final(self).last_profile_id == old(self).last_profile_id,
            final(self).items@ == old(self).items@.filter(
                item_outside(old(self).snapshots@, profile_id),
            ),
            final(self).snapshots@ == old(self).snapshots@.filter(
                snapshot_outside(old(self).snapshots@, profile_id),
            ),
            final(self).profiles@ == old(self).profiles@.filter(profile_other_than(profile_id)),
            old(self).well_formed() ==> final(self).well_formed(),
    {
        proof {
            if old(self).well_formed() {
                lemma_filter_numbered(
                    old(self).items@,
                    item_number(),
                    old(self).last_item_id,
                    item_outside(old(self).snapshots@, profile_id),
                );
                lemma_filter_numbered(
                    old(self).snapshots@,
                    snapshot_number(),
                    old(self).last_snapshot_id,
                    snapshot_outside(old(self).snapshots@, profile_id),
                );
                lemma_filter_numbered(
                    old(self).profiles@,
                    profile_number(),
                    old(self).last_profile_id,
                    profile_other_than(profile_id),
                );
            }
        }
        let mut rows: Vec<ItemRow> = Vec::new();
        std::mem::swap(&mut rows, &mut self.items);
        self.items = without_items_of_profile(rows, &self.snapshots, profile_id);
        let mut kept: Vec<Snapshot> = Vec::new();
        let mut k: usize = 0;
        while k < self.snapshots.len()
            invariant
                k <= self.snapshots@.len(),
                self.snapshots == old(self).snapshots,
                kept@ == self.snapshots@.take(k as int).filter(
                    snapshot_outside(self.snapshots@, profile_id),
                ),
            decreases self.snapshots@.len() - k,
        {
            proof {
                reveal(Seq::filter);
                assert(self.snapshots@.take(k + 1).drop_last() == self.snapshots@.take(k as int));
            }
            let s: Snapshot = self.snapshots[k];
            if !has_snapshot(&self.snapshots, profile_id, s.id) {
                kept.push(s);
            }
            k = k + 1;
        }
        assert(self.snapshots@.take(k as int) == self.snapshots@);
        self.snapshots = kept;
        let mut profiles: Vec<Profile> = Vec::new();
        std::mem::swap(&mut profiles, &mut self.profiles);
        self.profiles = without_profile(profiles, profile_id);
    }
}

} // verus!