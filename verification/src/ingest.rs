//! Price ingestion: every call takes one new revision and appends one
//! observation for each priced line of each feed, feed by feed, until a
//! feed fails.

use crate::catalog::{max_revision, max_revision_of};
use crate::error::{Error, SqlFailure};
use crate::market::{Feed, MarketLine};
use crate::model::{Price, Timestamp};
use crate::pricing::{fully_linked, is_fully_linked, next_revision, revision_after};
use crate::store::{lemma_append_numbered, price_number, Database};
use vstd::prelude::*;

verus! {

/// The observation that a line priced at `price` becomes.
pub open spec fn observation_of(
    line: MarketLine,
    price: i64,
    id: i64,
    league: String,
    revision: i64,
    timestamp: Timestamp,
) -> Price {
    Price {
        id,
        name: line.name,
        price,
        revision,
        fully_linked: fully_linked(line.links),
        timestamp,
        league,
    }
}

/// The observations that `lines` become, in order: one for each line that
/// names a price, numbered on from `last_id`.
pub open spec fn observations_of(
    lines: Seq<MarketLine>,
    league: String,
    revision: i64,
    timestamp: Timestamp,
    last_id: int,
) -> Seq<Price>
    decreases lines.len(),
{
    if lines.len() == 0 {
        Seq::empty()
    } else {
        let before = observations_of(lines.drop_last(), league, revision, timestamp, last_id);
        match lines.last().price {
            Some(p) => before.push(
                observation_of(
                    lines.last(),
                    p,
                    (last_id + before.len() + 1) as i64,
                    league,
                    revision,
                    timestamp,
                ),
            ),
            None => before,
        }
    }
}

/// There are no more observations than lines, and a longer run of lines
/// gives no fewer observations.
pub proof fn lemma_observations_len(
    lines: Seq<MarketLine>,
    k: int,
    league: String,
    revision: i64,
    timestamp: Timestamp,
    last_id: int,
)
    requires
        0 <= k <= lines.len(),
    ensures
        observations_of(lines.take(k), league, revision, timestamp, last_id).len()
            <= observations_of(lines, league, revision, timestamp, last_id).len() <= lines.len(),
    decreases lines.len(),
{
    if k < lines.len() {
        lemma_observations_len(lines.drop_last(), k, league, revision, timestamp, last_id);
        assert(lines.drop_last().take(k) == lines.take(k));
    } else {
        assert(lines.take(k) == lines);
        if lines.len() > 0 {
            lemma_observations_len(
                lines.drop_last(),
                k - 1,
                league,
                revision,
                timestamp,
                last_id,
            );
        }
    }
}

/// The observations of a feed are numbered on from `last_id`, one by one.
pub proof fn lemma_observation_numbers(
    lines: Seq<MarketLine>,
    league: String,
    revision: i64,
    timestamp: Timestamp,
    last_id: i64,
)
    requires
        last_id + observations_of(lines, league, revision, timestamp, last_id as int).len()
            <= i64::MAX,
    ensures
        forall|k: int|
            0 <= k < observations_of(lines, league, revision, timestamp, last_id as int).len()
                ==> (#[trigger] observations_of(
                lines,
                league,
                revision,
                timestamp,
                last_id as int,
            )[k]).id == last_id + k + 1,
    decreases lines.len(),
{
    if lines.len() > 0 {
        lemma_observations_len(
            lines,
            lines.len() - 1,
            league,
            revision,
            timestamp,
            last_id as int,
        );
        assert(lines.take(lines.len() - 1) == lines.drop_last());
        lemma_observation_numbers(lines.drop_last(), league, revision, timestamp, last_id);
    }
}

/// How far an ingestion got: the price table and the last identifier
/// handed out when it stopped, and what stopped it, if anything did.
pub struct Ingestion {
    pub prices: Seq<Price>,
    pub last_id: int,
    pub failure: Option<Error>,
}

/// The outcome of taking in `feeds` one after the other under `revision`,
/// starting from `prices` and `last_id`. A feed is taken in whole or not at
/// all; the first feed that did not arrive, or whose rows the table cannot
/// number, stops the ingestion, and what came before it stays.
pub open spec fn ingestion_of(
    prices: Seq<Price>,
    last_id: int,
    feeds: Seq<Feed>,
    revision: i64,
    timestamp: Timestamp,
) -> Ingestion
    decreases feeds.len(),
{
    if feeds.len() == 0 {
        Ingestion { prices, last_id, failure: None }
    } else {
        let before = ingestion_of(prices, last_id, feeds.drop_last(), revision, timestamp);
        if before.failure is Some {
            before
        } else {
            match feeds.last().lines {
                Err(words) => Ingestion { failure: Some(Error::Network(words)), ..before },
                Ok(lines) => {
                    let rows = observations_of(
                        lines@,
                        feeds.last().league,
                        revision,
                        timestamp,
                        before.last_id,
                    );
                    if before.last_id + rows.len() <= i64::MAX {
                        Ingestion {
                            prices: before.prices + rows,
                            last_id: before.last_id + rows.len(),
                            failure: None,
                        }
                    } else {
                        Ingestion { failure: Some(Error::Sql(SqlFailure::Full)), ..before }
                    }
                },
            }
        }
    }
}

/// Once an ingestion has been stopped, further feeds change nothing.
pub proof fn lemma_ingestion_stopped(
    prices: Seq<Price>,
    last_id: int,
    feeds: Seq<Feed>,
    k: int,
    revision: i64,
    timestamp: Timestamp,
)
    requires
        0 <= k <= feeds.len(),
        ingestion_of(prices, last_id, feeds.take(k), revision, timestamp).failure is Some,
    ensures
        ingestion_of(prices, last_id, feeds, revision, timestamp) == ingestion_of(
            prices,
            last_id,
            feeds.take(k),
            revision,
            timestamp,
        ),
    decreases feeds.len(),
{
    if k < feeds.len() {
        assert(feeds.drop_last().take(k) == feeds.take(k));
        lemma_ingestion_stopped(prices, last_id, feeds.drop_last(), k, revision, timestamp);
    } else {
        assert(feeds.take(k) == feeds);
    }
}

impl Database {
    /// Appends the observations of one feed under `revision`.
    ///
    /// Fails, and changes nothing, where the price table has fewer
    /// identifiers left than the feed has priced lines.
    pub fn record_feed(
        &mut self,
        league: &String,
        lines: &Vec<MarketLine>,
        revision: i64,
        timestamp: Timestamp,
    ) -> (r: Result<(), Error>)
        ensures
            final(self).same_but_prices(*old(self)),
            old(self).well_formed() ==> final(self).well_formed(),
            ({
                let rows = observations_of(
                    lines@,
                    *league,
                    revision,
                    timestamp,
                    old(self).last_price_id as int,
                );
                if old(self).last_price_id + rows.len() <= i64::MAX {
                    &&& r == Ok::<(), Error>(())
                    &&& final(self).prices@ == old(self).prices@ + rows
                    &&& final(self).last_price_id == old(self).last_price_id + rows.len()
                } else {
                    &&& r == Err::<(), Error>(Error::Sql(SqlFailure::Full))
                    &&& *final(self) == *old(self)
                }
            }),
    {
        let ghost last: int = self.last_price_id as int;
        let mut rows: Vec<Price> = Vec::new();
        let mut id: i64 = self.last_price_id;
        let mut k: usize = 0;
        while k < lines.len()
            invariant
                k <= lines@.len(),
                last == self.last_price_id,
                rows@ == observations_of(lines@.take(k as int), *league, revision, timestamp, last),
                id == last + rows@.len(),
                *self == *old(self),
            decreases lines@.len() - k,
        {
            proof {
                assert(lines@.take(k + 1).drop_last() == lines@.take(k as int));
                lemma_observations_len(lines@, k + 1, *league, revision, timestamp, last);
            }
            let line: &MarketLine = &lines[k];
            match line.price {
                Some(p) => {
                    if id == i64::MAX {
                        return Err(Error::Sql(SqlFailure::Full));
                    }
                    id = id + 1;
                    rows.push(
                        Price {
                            id,
                            name: line.name.clone(),
                            price: p,
                            revision,
                            fully_linked: is_fully_linked(line.links),
                            timestamp,
                            league: league.clone(),
                        },
                    );
                },
                None => {},
            }
            k = k + 1;
        }
        assert(lines@.take(k as int) == lines@);
        proof {
            if old(self).well_formed() {
                lemma_observation_numbers(
                    lines@,
                    *league,
                    revision,
                    timestamp,
                    old(self).last_price_id,
                );
                lemma_append_numbered(
                    old(self).prices@,
                    rows@,
                    price_number(),
                    old(self).last_price_id,
                    id,
                );
            }
        }
        self.prices.append(&mut rows);
        self.last_price_id = id;
        Ok(())
    }
    /// Takes in `feeds` under one new revision, the one after the highest
    /// on record, and returns that revision.
    ///
    /// Fails, and changes nothing, where no revision number is left. Fails
    /// at the first feed that did not arrive or that the price table cannot
    /// number; the observations of the feeds before it stay.
    pub fn ingest(&mut self, feeds: &Vec<Feed>, timestamp: Timestamp) -> (r: Result<i64, Error>)
        ensures
            final(self).same_but_prices(*old(self)),
            old(self).well_formed() ==> final(self).well_formed(),
            match revision_after(max_revision_of(old(self).prices@)) {
                None => {
                    &&& r == Err::<i64, Error>(Error::Sql(SqlFailure::Full))
                    &&& *final(self) == *old(self)
                },
                Some(revision) => {
                    let outcome = ingestion_of(
                        old(self).prices@,
                        old(self).last_price_id as int,
                        feeds@,
                        revision,
                        timestamp,
                    );
                    &&& final(self).prices@ == outcome.prices
                    &&& final(self).last_price_id == outcome.last_id
                    &&& r == match outcome.failure {
                        None => Ok::<i64, Error>(revision),
                        Some(e) => Err::<i64, Error>(e),
                    }
                },
            },
    {
        let revision: i64 = match next_revision(max_revision(&self.prices)) {
            Some(r) => r,
            None => {
                return Err(Error::Sql(SqlFailure::Full));
            },
        };
        let ghost start: Seq<Price> = self.prices@;
        let ghost last: int = self.last_price_id as int;
        let mut k: usize = 0;
        while k < feeds.len()
            invariant
                k <= feeds@.len(),
                self.same_but_prices(*old(self)),
                old(self).well_formed() ==> self.well_formed(),
                start == old(self).prices@,
                last == old(self).last_price_id,
                revision_after(max_revision_of(start)) == Some(revision),
                ({
                    let so_far = ingestion_of(start, last, feeds@.take(k as int), revision, timestamp);
                    &&& so_far.failure is None
                    &&& self.prices@ == so_far.prices
                    &&& self.last_price_id == so_far.last_id
                }),
            decreases feeds@.len() - k,
        {
            proof {
                assert(feeds@.take(k + 1).drop_last() == feeds@.take(k as int));
            }
            let feed: &Feed = &feeds[k];
            match &feed.lines {
                Err(words) => {
                    proof {
                        lemma_ingestion_stopped(start, last, feeds@, k + 1, revision, timestamp);
                    }
                    return Err(Error::Network(words.clone()));
                },
                Ok(lines) => {
                    match self.record_feed(&feed.league, lines, revision, timestamp) {
                        Err(e) => {
                            proof {
                                lemma_ingestion_stopped(
                                    start,
                                    last,
                                    feeds@,
                                    k + 1,
                                    revision,
                                    timestamp,
                                );
                            }
                            return Err(e);
                        },
                        Ok(()) => {},
                    }
                },
            }
            k = k + 1;
        }
        assert(feeds@.take(k as int) == feeds@);
        Ok(revision)
    }
}

} // verus!