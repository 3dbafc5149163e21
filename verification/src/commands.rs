//! The command surface: the store behind a connection that may not be
//! loaded yet, and the commands on prices. No command reads the clock: the
//! caller hands in the time.

use crate::catalog::{find_price, is_recent, max_revision, max_revision_of, price_found, recent};
use crate::error::{Error, SqlFailure};
use crate::ingest::ingestion_of;
use crate::market::Feed;
use crate::model::Timestamp;
use crate::pricing::revision_after;
use crate::store::Database;
use vstd::prelude::*;

verus! {

/// The connection to the store; the store is absent until it is loaded.
pub struct DbCon {
    pub db: Option<Database>,
}

impl DbCon {
    /// A connection whose store is not loaded yet.
    pub fn unloaded() -> (con: DbCon)
        ensures
            con.db is None,
    {
        DbCon { db: None }
    }

    /// Opens the store: `existing` where there is one, and a new store
    /// without rows otherwise.
    pub fn init(existing: Option<Database>) -> (con: DbCon)
        ensures
            match existing {
                Some(db) => con.db == Some(db),
                None => con.db matches Some(db) && db.is_empty() && db.well_formed(),
            },
    {
        match existing {
            Some(db) => DbCon { db: Some(db) },
            None => DbCon { db: Some(Database::new()) },
        }
    }

    /// The store, to read. Fails where it is not loaded.
    pub fn loaded(&self) -> (r: Result<&Database, Error>)
        ensures
            match r {
                Ok(db) => self.db == Some(*db),
                Err(e) => e == Error::DatabaseNotLoaded && self.db is None,
            },
    {
        match &self.db {
            Some(db) => Ok(db),
            None => Err(Error::DatabaseNotLoaded),
        }
    }

    /// The store, to change. Fails where it is not loaded.
    pub fn loaded_mut(&mut self) -> (r: Result<&mut Database, Error>)
        ensures
            match r {
                Ok(db) => old(self).db == Some(*db) && final(self).db == Some(*final(db)),
                Err(e) => {
                    &&& e == Error::DatabaseNotLoaded
                    &&& old(self).db is None
                    &&& final(self).db is None
                },
            },
    {
        match &mut self.db {
            Some(db) => Ok(db),
            None => Err(Error::DatabaseNotLoaded),
        }
    }

    /// Discards the store and loads a new one without rows. Fails, and
    /// changes nothing, where no store is loaded.
    pub fn oopsie(&mut self) -> (r: Result<(), Error>)
        ensures
            match old(self).db {
                Some(_) => {
                    &&& r == Ok::<(), Error>(())
                    &&& final(self).db matches Some(db) && db.is_empty() && db.well_formed()
                },
                None => {
                    &&& r == Err::<(), Error>(Error::DatabaseNotLoaded)
                    &&& final(self).db is None
                },
            },
    {
        if self.db.is_none() {
            return Err(Error::DatabaseNotLoaded);
        }
        self.db = Some(Database::new());
        Ok(())
    }
}

/// Whether `after` and `r` are what taking in `feeds` at `timestamp` makes
/// of `before`.
pub open spec fn fetched(
    before: Database,
    after: Database,
    feeds: Seq<Feed>,
    timestamp: Timestamp,
    r: Result<(), Error>,
) -> bool {
    &&& after.same_but_prices(before)
    &&& match revision_after(max_revision_of(before.prices@)) {
        None => r == Err::<(), Error>(Error::Sql(SqlFailure::Full)) && after == before,
        Some(revision) => {
            let outcome = ingestion_of(
                before.prices@,
                before.last_price_id as int,
                feeds,
                revision,
                timestamp,
            );
            &&& after.prices@ == outcome.prices
            &&& after.last_price_id == outcome.last_id
            &&& r == match outcome.failure {
                None => Ok::<(), Error>(()),
                Some(e) => Err::<(), Error>(e),
            }
        },
    }
}

impl Database {
    /// Takes in `feeds` under one new revision, stamped `timestamp`, as
    /// [`Database::ingest`] does, and keeps the revision to itself.
    ///
    /// Fails, and changes nothing, where no revision number is left. Fails
    /// at the first feed that did not arrive or that the price table cannot
    /// number; the observations of the feeds before it stay.
    pub fn fetch_prices(&mut self, feeds: &Vec<Feed>, timestamp: Timestamp) -> (r: Result<
        (),
        Error,
    >)
        ensures
            fetched(*old(self), *final(self), feeds@, timestamp, r),
            old(self).well_formed() ==> final(self).well_formed(),
    {
        match self.ingest(feeds, timestamp) {
            Ok(_) => Ok(()),
            Err(e) => Err(e),
        }
    }

    /// Whether an observation on record was made at most an hour before
    /// `now`: never where no price is on record, and otherwise as the
    /// newest observation decides.
    pub fn has_recent_prices(&self, now: Timestamp) -> (b: bool)
        ensures
            b == recent(self.prices@, now),
            self.prices@.len() == 0 ==> !b,
    {
        is_recent(&self.prices, now)
    }

    /// The price of the first observation at the highest revision on
    /// record that `name` matches, in whatever league.
    ///
    /// Fails where no price is on record, and where no observation at that
    /// revision matches.
    pub fn check_price(&self, name: &str) -> (r: Result<i64, Error>)
        ensures
            r == match max_revision_of(self.prices@) {
                None => Err::<i64, Error>(Error::Sql(SqlFailure::RowNotFound)),
                Some(revision) => match price_found(self.prices@, name@, false, revision, None) {
                    Some(price) => Ok::<i64, Error>(price),
                    None => Err::<i64, Error>(Error::Sql(SqlFailure::RowNotFound)),
                },
            },
    {
        let revision: i64 = match max_revision(&self.prices) {
            Some(revision) => revision,
            None => {
                return Err(Error::Sql(SqlFailure::RowNotFound));
            },
        };
        match find_price(&self.prices, name, false, revision, None) {
            Some(price) => Ok(price),
            None => Err(Error::Sql(SqlFailure::RowNotFound)),
        }
    }
}

} // verus!
