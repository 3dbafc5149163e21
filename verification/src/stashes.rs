//! Stash tabs: listed, stored under their identifier, and found by it.

use crate::error::{Error, SqlFailure};
use crate::model::Stash;
use crate::pricing::same_text;
use crate::store::{distinct_identifiers, first_where, Database};
use vstd::prelude::*;

verus! {

/// The stashes identified by `id`.
pub open spec fn stash_identified(id: Seq<char>) -> spec_fn(Stash) -> bool {
    |s: Stash| s.id@ == id
}

/// `stashes` with `row` stored: in place of every stash that has its
/// identifier, and at the end where none has it.
pub open spec fn upserted(stashes: Seq<Stash>, row: Stash) -> Seq<Stash> {
    if exists|i: int| 0 <= i < stashes.len() && (#[trigger] stashes[i]).id@ == row.id@ {
        stashes.map_values(
            |s: Stash|
                if s.id@ == row.id@ {
                    row
                } else {
                    s
                },
        )
    } else {
        stashes.push(row)
    }
}

impl Database {
    /// Every stash on record, in the order in which they were first stored.
    pub fn get_stashes(&self) -> (list: Vec<Stash>)
        ensures
            list@ == self.stashes@,
    {
        let mut list: Vec<Stash> = Vec::new();
        let mut k: usize = 0;
        while k < self.stashes.len()
            invariant
                k <= self.stashes@.len(),
                list@ == self.stashes@.take(k as int),
            decreases self.stashes@.len() - k,
        {
            list.push(self.stashes[k].duplicate());
            k = k + 1;
        }
        list
    }

    /// Stores a stash under `stash_id`, in place of the one that has this
    /// identifier where there is one, and returns it as stored. Where each
    /// identifier had one stash at most, it has one at most afterwards.
    pub fn insert_stash(
        &mut self,
        stash_id: String,
        stash_name: String,
        stash_type: String,
        league: String,
    ) -> (stored: Stash)
        ensures
            stored == (Stash { id: stash_id, name: stash_name, stash_type, league }),
            final(self).same_but_stashes(*old(self)),
            final(self).stashes@ == upserted(old(self).stashes@, stored),
            distinct_identifiers(old(self).stashes@) ==> distinct_identifiers(final(self).stashes@),
            old(self).well_formed() ==> final(self).well_formed(),
    {
        let row = Stash { id: stash_id, name: stash_name, stash_type, league };
        let mut found: bool = false;
        let mut k: usize = 0;
        while k < self.stashes.len()
            invariant
                k <= self.stashes@.len(),
                self.same_but_stashes(*old(self)),
                self.stashes@.len() == old(self).stashes@.len(),
                found == exists|i: int|
                    0 <= i < k && (#[trigger] old(self).stashes@[i]).id@ == row.id@,
                forall|j: int|
                    0 <= j < k ==> #[trigger] self.stashes@[j] == if old(self).stashes@[j].id@
                        == row.id@ {
                        row
                    } else {
                        old(self).stashes@[j]
                    },
                forall|j: int|
                    k <= j < self.stashes@.len() ==> #[trigger] self.stashes@[j] == old(
                        self,
                    ).stashes@[j],
            decreases self.stashes@.len() - k,
        {
            if same_text(self.stashes[k].id.as_str(), row.id.as_str()) {
                self.stashes.set(k, row.duplicate());
                found = true;
            }
            k = k + 1;
        }
        proof {
            if distinct_identifiers(old(self).stashes@) {
                assert forall|i: int, j: int| 0 <= i < j < self.stashes@.len() implies (
                #[trigger] self.stashes@[i]).id@ != (#[trigger] self.stashes@[j]).id@ by {
                    assert(self.stashes@[i].id@ == old(self).stashes@[i].id@);
                    assert(self.stashes@[j].id@ == old(self).stashes@[j].id@);
                }
            }
        }
        if !found {
            self.stashes.push(row.duplicate());
        } else {
            assert(self.stashes@ =~= upserted(old(self).stashes@, row));
        }
        row
    }

    /// The first stash identified by `stash_id`. Fails where there is none.
    pub fn stash_from_id(&self, stash_id: &str) -> (r: Result<Stash, Error>)
        ensures
            r == match first_where(self.stashes@, stash_identified(stash_id@)) {
                Some(s) => Ok::<Stash, Error>(s),
                None => Err::<Stash, Error>(Error::Sql(SqlFailure::RowNotFound)),
            },
    {
        let mut k: usize = 0;
        assert(self.stashes@.skip(0) == self.stashes@);
        while k < self.stashes.len()
            invariant
                k <= self.stashes@.len(),
                first_where(self.stashes@, stash_identified(stash_id@)) == first_where(
                    self.stashes@.skip(k as int),
                    stash_identified(stash_id@),
                ),
            decreases self.stashes@.len() - k,
        {
            assert(self.stashes@.skip(k as int).drop_first() == self.stashes@.skip(k + 1));
            if same_text(self.stashes[k].id.as_str(), stash_id) {
                return Ok(self.stashes[k].duplicate());
            }
            k = k + 1;
        }
        Err(Error::Sql(SqlFailure::RowNotFound))
    }
}

} // verus!
