//! What holds of the catalog and of valuation whatever the inputs are.

use crate::catalog::{
    answers, first_answer_from, lemma_first_answer, lemma_max_revision, max_revision_of,
    price_found,
};
use crate::ingest::{ingestion_of, observations_of};
use crate::snapshots::bound_snapshot;
use crate::market::{Feed, MarketLine};
use crate::model::{Item, Price, Timestamp};
use crate::pricing::{
    chaos_orb, lookup_name_of, revision_after, stack_count, unit_price_of, MICROS_PER_CHAOS,
};
use crate::valuation::{item_unit_price, item_value, item_values, valuation_of};
use vstd::prelude::*;

verus! {

/// Whether `longer` is `shorter` followed by rows that all carry `revision`
/// and `timestamp`.
pub open spec fn extends_with(
    longer: Seq<Price>,
    shorter: Seq<Price>,
    revision: i64,
    timestamp: Timestamp,
) -> bool {
    &&& shorter.len() <= longer.len()
    &&& forall|i: int| 0 <= i < shorter.len() ==> longer[i] == shorter[i]
    &&& forall|i: int|
        shorter.len() <= i < longer.len() ==> (#[trigger] longer[i]).revision == revision
            && longer[i].timestamp == timestamp
}

/// The observations of one feed all carry the feed's revision and time.
pub proof fn law_observations_carry_revision(
    lines: Seq<MarketLine>,
    league: String,
    revision: i64,
    timestamp: Timestamp,
    last_id: int,
)
    ensures
        extends_with(
            observations_of(lines, league, revision, timestamp, last_id),
            Seq::empty(),
            revision,
            timestamp,
        ),
    decreases lines.len(),
{
    if lines.len() > 0 {
        law_observations_carry_revision(lines.drop_last(), league, revision, timestamp, last_id);
    }
}

/// An ingestion only appends: every row that was on record stays where it
/// was and as it was, and every row that is added carries the ingestion's
/// revision and time. This holds also of an ingestion that was stopped.
pub proof fn law_ingestion_appends(
    prices: Seq<Price>,
    last_id: int,
    feeds: Seq<Feed>,
    revision: i64,
    timestamp: Timestamp,
)
    ensures
        extends_with(
            ingestion_of(prices, last_id, feeds, revision, timestamp).prices,
            prices,
            revision,
            timestamp,
        ),
    decreases feeds.len(),
{
    if feeds.len() > 0 {
        law_ingestion_appends(prices, last_id, feeds.drop_last(), revision, timestamp);
        let before = ingestion_of(prices, last_id, feeds.drop_last(), revision, timestamp);
        if before.failure is None {
            match feeds.last().lines {
                Ok(lines) => {
                    law_observations_carry_revision(
                        lines@,
                        feeds.last().league,
                        revision,
                        timestamp,
                        before.last_id,
                    );
                },
                Err(_) => {},
            }
        }
    }
}

/// A revision that some row carries and that no row exceeds is the highest.
pub proof fn law_highest_revision_is_unique(prices: Seq<Price>, at: int)
    requires
        0 <= at < prices.len(),
        forall|j: int| 0 <= j < prices.len() ==> prices[j].revision <= prices[at].revision,
    ensures
        max_revision_of(prices) == Some(prices[at].revision),
{
    lemma_max_revision(prices);
}

/// Revisions strictly increase: an ingestion's revision is higher than
/// every revision that was on record, and where the ingestion added a row,
/// its revision is the highest on record afterwards, so that the next
/// ingestion takes a higher one still.
pub proof fn law_revisions_increase(
    prices: Seq<Price>,
    last_id: int,
    feeds: Seq<Feed>,
    revision: i64,
    timestamp: Timestamp,
)
    requires
        revision_after(max_revision_of(prices)) == Some(revision),
    ensures
        forall|i: int| 0 <= i < prices.len() ==> (#[trigger] prices[i]).revision < revision,
        ({
            let after = ingestion_of(prices, last_id, feeds, revision, timestamp).prices;
            after.len() > prices.len() ==> {
                &&& max_revision_of(after) == Some(revision)
                &&& revision_after(max_revision_of(after)) matches Some(next) ==> next > revision
            }
        }),
{
    lemma_max_revision(prices);
    law_ingestion_appends(prices, last_id, feeds, revision, timestamp);
    let after = ingestion_of(prices, last_id, feeds, revision, timestamp).prices;
    if after.len() > prices.len() {
        let at = prices.len() as int;
        assert(after[at].revision == revision);
        assert forall|j: int| 0 <= j < after.len() implies after[j].revision
            <= after[at].revision by {
            if j < prices.len() {
                assert(after[j] == prices[j]);
            }
        }
        law_highest_revision_is_unique(after, at);
    }
}

/// Rows of other revisions, appended to the price table, leave every
/// lookup at `revision` as it was.
pub proof fn law_lookup_ignores_other_revisions(
    prices: Seq<Price>,
    later: Seq<Price>,
    name: Seq<char>,
    exact: bool,
    revision: i64,
    league: Option<Seq<char>>,
)
    requires
        forall|i: int| 0 <= i < later.len() ==> (#[trigger] later[i]).revision != revision,
    ensures
        price_found(prices + later, name, exact, revision, league) == price_found(
            prices,
            name,
            exact,
            revision,
            league,
        ),
{
    let all = prices + later;
    lemma_first_answer(prices, 0, name, exact, revision, league);
    lemma_first_answer(all, 0, name, exact, revision, league);
    let short = first_answer_from(prices, 0, name, exact, revision, league);
    let long = first_answer_from(all, 0, name, exact, revision, league);
    assert forall|j: int|
        0 <= j < all.len() && answers(
            #[trigger] all[j],
            name,
            exact,
            revision,
            league,
        ) implies j < prices.len() && answers(prices[j], name, exact, revision, league) by {
        if j >= prices.len() {
            assert(all[j] == later[j - prices.len()]);
        } else {
            assert(all[j] == prices[j]);
        }
    }
    match short {
        Some(i) => {
            assert(all[i] == prices[i]);
            assert(long is Some);
            let l = long->0;
            assert(answers(all[l], name, exact, revision, league));
            assert(all[l] == prices[l]);
            if l < i {
                assert(!answers(prices[l], name, exact, revision, league));
            }
            if i < l {
                assert(!answers(all[i], name, exact, revision, league));
            }
        },
        None => {
            if long is Some {
                let l = long->0;
                assert(answers(all[l], name, exact, revision, league));
                assert(!answers(prices[l], name, exact, revision, league));
            }
        },
    }
}

/// A valuation is reproducible: what a list of items is worth at a
/// revision does not change when rows of other revisions are appended to
/// the price table, however many.
pub proof fn law_valuation_ignores_other_revisions(
    prices: Seq<Price>,
    later: Seq<Price>,
    revision: i64,
    league: Seq<char>,
    items: Seq<Item>,
)
    requires
        forall|i: int| 0 <= i < later.len() ==> (#[trigger] later[i]).revision != revision,
    ensures
        item_values(prices + later, revision, league, items) == item_values(
            prices,
            revision,
            league,
            items,
        ),
        valuation_of(prices + later, revision, league, items) == valuation_of(
            prices,
            revision,
            league,
            items,
        ),
{
    assert forall|k: int| 0 <= k < items.len() implies item_value(
        prices + later,
        revision,
        league,
        items[k],
    ) == item_value(prices, revision, league, items[k]) by {
        law_lookup_ignores_other_revisions(
            prices,
            later,
            lookup_name_of(items[k]),
            false,
            revision,
            Some(league),
        );
    }
    assert(item_values(prices + later, revision, league, items) =~= item_values(
        prices,
        revision,
        league,
        items,
    ));
}

/// A snapshot keeps its value through ingestions: what a list of items is
/// worth at a revision on record is the same before and after an ingestion,
/// whether the ingestion ran to its end or was stopped.
pub proof fn law_snapshot_value_survives_ingestion(
    prices: Seq<Price>,
    last_id: int,
    feeds: Seq<Feed>,
    next: i64,
    timestamp: Timestamp,
    revision: i64,
    league: Seq<char>,
    items: Seq<Item>,
)
    requires
        revision_after(max_revision_of(prices)) == Some(next),
        max_revision_of(prices) matches Some(highest) && revision <= highest,
    ensures
        valuation_of(
            ingestion_of(prices, last_id, feeds, next, timestamp).prices,
            revision,
            league,
            items,
        ) == valuation_of(prices, revision, league, items),
{
    law_ingestion_appends(prices, last_id, feeds, next, timestamp);
    let after = ingestion_of(prices, last_id, feeds, next, timestamp).prices;
    let later = after.subrange(prices.len() as int, after.len() as int);
    assert(after =~= prices + later);
    assert forall|i: int| 0 <= i < later.len() implies (#[trigger] later[i]).revision
        != revision by {
        assert(later[i] == after[i + prices.len()]);
    }
    law_valuation_ignores_other_revisions(prices, later, revision, league, items);
}

/// A snapshot is bound to the revision that was read for it, not to one
/// taken since. Where the highest revision on record is read, an ingestion
/// then takes the next revision, and the snapshot is recorded only after
/// that, the snapshot carries the revision read. That revision is lower
/// than the ingestion's; where the ingestion added a row it is no longer
/// the highest on record; and the rows that were on record at the read are
/// still where they were and as they were.
pub proof fn law_snapshot_binds_the_revision_read(
    prices: Seq<Price>,
    last_id: int,
    feeds: Seq<Feed>,
    ingested_at: Timestamp,
    read: i64,
    next: i64,
    id: i64,
    profile_id: i64,
    made_at: Timestamp,
)
    requires
        max_revision_of(prices) == Some(read),
        revision_after(max_revision_of(prices)) == Some(next),
    ensures
        ({
            let after = ingestion_of(prices, last_id, feeds, next, ingested_at).prices;
            let made = bound_snapshot(id, profile_id, made_at, read);
            &&& made.pricing_revision == read
            &&& made.pricing_revision < next
            &&& extends_with(after, prices, next, ingested_at)
            &&& after.len() > prices.len() ==> {
                &&& max_revision_of(after) == Some(next)
                &&& max_revision_of(after) != Some(made.pricing_revision)
            }
        }),
{
    law_ingestion_appends(prices, last_id, feeds, next, ingested_at);
    law_revisions_increase(prices, last_id, feeds, next, ingested_at);
}

/// One Chaos Orb costs one Chaos Orb, whatever the price table holds.
pub proof fn law_chaos_orb_is_pinned(
    prices: Seq<Price>,
    revision: i64,
    league: Seq<char>,
    item: Item,
    found: Option<i64>,
)
    requires
        lookup_name_of(item) == chaos_orb(),
    ensures
        unit_price_of(chaos_orb(), found) == MICROS_PER_CHAOS,
        item_unit_price(prices, revision, league, item) == MICROS_PER_CHAOS,
        item_value(prices, revision, league, item) == MICROS_PER_CHAOS * stack_count(
            item.stack_size,
        ),
{
}

/// A stack is worth its unit price times its size, and times one where
/// the size is not reported or is below one.
pub proof fn law_stacking(prices: Seq<Price>, revision: i64, league: Seq<char>, item: Item)
    ensures
        item_value(prices, revision, league, item) == item_unit_price(
            prices,
            revision,
            league,
            item,
        ) * stack_count(item.stack_size),
        item.stack_size is None ==> stack_count(item.stack_size) == 1,
        item.stack_size matches Some(n) ==> stack_count(item.stack_size) == if n >= 1 {
            n as int
        } else {
            1
        },
{
}

} // verus!
