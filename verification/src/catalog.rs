//! Queries over the price table: an append-ordered list of observations in
//! which a lookup takes the first row that matches.

use crate::model::{Price, Timestamp};
use crate::pattern::{like, like_chars, chars_of};
use crate::pricing::{fresh, is_fresh, same_text};
use vstd::prelude::*;

verus! {

/// The highest revision among `prices`, and none where there is no row.
pub open spec fn max_revision_of(prices: Seq<Price>) -> Option<i64>
    decreases prices.len(),
{
    if prices.len() == 0 {
        None
    } else {
        match max_revision_of(prices.drop_last()) {
            None => Some(prices.last().revision),
            Some(m) => if prices.last().revision > m {
                Some(prices.last().revision)
            } else {
                Some(m)
            },
        }
    }
}

/// The highest revision is a revision of some row and no row has a higher
/// one; there is none exactly where there is no row.
pub proof fn lemma_max_revision(prices: Seq<Price>)
    ensures
        max_revision_of(prices) is None <==> prices.len() == 0,
        max_revision_of(prices) matches Some(m) ==> {
            &&& exists|i: int| 0 <= i < prices.len() && prices[i].revision == m
            &&& forall|j: int| 0 <= j < prices.len() ==> prices[j].revision <= m
        },
    decreases prices.len(),
{
    if prices.len() > 0 {
        let front = prices.drop_last();
        lemma_max_revision(front);
        let m = max_revision_of(prices)->0;
        if max_revision_of(front) is Some && prices.last().revision <= max_revision_of(front)->0 {
            let i = choose|i: int| 0 <= i < front.len() && front[i].revision == m;
            assert(prices[i].revision == m);
        } else {
            assert(prices[prices.len() - 1].revision == m);
        }
        assert forall|j: int| 0 <= j < prices.len() implies prices[j].revision <= m by {
            if j < front.len() {
                assert(front[j].revision <= m);
            }
        }
    }
}

/// The highest revision among `prices`, and none where there is no row.
pub fn max_revision(prices: &Vec<Price>) -> (max: Option<i64>)
    ensures
        max == max_revision_of(prices@),
{
    let mut max: Option<i64> = None;
    let mut k: usize = 0;
    while k < prices.len()
        invariant
            k <= prices@.len(),
            max == max_revision_of(prices@.take(k as int)),
        decreases prices@.len() - k,
    {
        let r: i64 = prices[k].revision;
        assert(prices@.take(k + 1).drop_last() == prices@.take(k as int));
        max = match max {
            None => Some(r),
            Some(m) => if r > m {
                Some(r)
            } else {
                Some(m)
            },
        };
        k = k + 1;
    }
    assert(prices@.take(k as int) == prices@);
    max
}

/// Whether `price` answers a lookup of `name` at `revision`: its name is
/// `name` itself where `exact`, and matches `name` as a pattern otherwise;
/// its league is `league` where one is asked for.
pub open spec fn answers(
    price: Price,
    name: Seq<char>,
    exact: bool,
    revision: i64,
    league: Option<Seq<char>>,
) -> bool {
    &&& if exact {
        price.name@ == name
    } else {
        like(name, price.name@)
    }
    &&& price.revision == revision
    &&& match league {
        Some(l) => price.league@ == l,
        None => true,
    }
}

/// The place of the first row from `from` on that answers the lookup.
pub open spec fn first_answer_from(
    prices: Seq<Price>,
    from: int,
    name: Seq<char>,
    exact: bool,
    revision: i64,
    league: Option<Seq<char>>,
) -> Option<int>
    decreases prices.len() - from,
{
    if from < 0 || from >= prices.len() {
        None
    } else if answers(prices[from], name, exact, revision, league) {
        Some(from)
    } else {
        first_answer_from(prices, from + 1, name, exact, revision, league)
    }
}

/// The price in the first row that answers the lookup, and none where no
/// row does.
pub open spec fn price_found(
    prices: Seq<Price>,
    name: Seq<char>,
    exact: bool,
    revision: i64,
    league: Option<Seq<char>>,
) -> Option<i64> {
    match first_answer_from(prices, 0, name, exact, revision, league) {
        Some(i) => Some(prices[i].price),
        None => None,
    }
}

/// The first answer from `from` on is a row that answers, with none that
/// answers between `from` and it; there is none exactly where no row from
/// `from` on answers.
pub proof fn lemma_first_answer(
    prices: Seq<Price>,
    from: int,
    name: Seq<char>,
    exact: bool,
    revision: i64,
    league: Option<Seq<char>>,
)
    requires
        0 <= from <= prices.len(),
    ensures
        first_answer_from(prices, from, name, exact, revision, league) matches Some(i) ==> {
            &&& from <= i < prices.len()
            &&& answers(prices[i], name, exact, revision, league)
            &&& forall|j: int| from <= j < i ==> !answers(prices[j], name, exact, revision, league)
        },
        first_answer_from(prices, from, name, exact, revision, league) is None ==> forall|j: int|
            from <= j < prices.len() ==> !answers(prices[j], name, exact, revision, league),
    decreases prices.len() - from,
{
    if from < prices.len() && !answers(prices[from], name, exact, revision, league) {
        lemma_first_answer(prices, from + 1, name, exact, revision, league);
    }
}

/// Whether `price` answers the lookup.
fn row_answers(
    price: &Price,
    name: &Vec<char>,
    name_text: &str,
    exact: bool,
    revision: i64,
    league: Option<&str>,
) -> (b: bool)
    requires
        name@ == name_text@,
    ensures
        b == answers(
            *price,
            name@,
            exact,
            revision,
            match league {
                Some(l) => Some(l@),
                None => None,
            },
        ),
{
    if price.revision != revision {
        return false;
    }
    let in_league: bool = match league {
        Some(l) => same_text(price.league.as_str(), l),
        None => true,
    };
    if !in_league {
        return false;
    }
    if exact {
        same_text(price.name.as_str(), name_text)
    } else {
        let text: Vec<char> = chars_of(price.name.as_str());
        like_chars(name, &text)
    }
}

/// The price in the first row of `prices` that answers a lookup of `name`
/// at `revision`, in `league` where one is given; none where no row does.
pub fn find_price(
    prices: &Vec<Price>,
    name: &str,
    exact: bool,
    revision: i64,
    league: Option<&str>,
) -> (found: Option<i64>)
    ensures
        found == price_found(
            prices@,
            name@,
            exact,
            revision,
            match league {
                Some(l) => Some(l@),
                None => None,
            },
        ),
{
    let ghost asked: Option<Seq<char>> = match league {
        Some(l) => Some(l@),
        None => None,
    };
    let pattern: Vec<char> = chars_of(name);
    let mut k: usize = 0;
    while k < prices.len()
        invariant
            k <= prices@.len(),
            pattern@ == name@,
            asked == match league {
                Some(l) => Some(l@),
                None => None,
            },
            first_answer_from(prices@, 0, name@, exact, revision, asked) == first_answer_from(
                prices@,
                k as int,
                name@,
                exact,
                revision,
                asked,
            ),
        decreases prices@.len() - k,
    {
        if row_answers(&prices[k], &pattern, name, exact, revision, league) {
            return Some(prices[k].price);
        }
        k = k + 1;
    }
    None
}

/// Whether some row of `prices` was observed at most an hour before `now`;
/// this is so exactly where the newest row was.
pub open spec fn recent(prices: Seq<Price>, now: Timestamp) -> bool {
    exists|i: int| 0 <= i < prices.len() && fresh(now, #[trigger] prices[i].timestamp)
}

/// Whether `t` is the time of a row of `prices` than which none is newer.
pub open spec fn is_newest(prices: Seq<Price>, t: Timestamp) -> bool {
    &&& exists|i: int| 0 <= i < prices.len() && #[trigger] prices[i].timestamp == t
    &&& forall|j: int|
        0 <= j < prices.len() ==> (#[trigger] prices[j].timestamp).as_nanos() <= t.as_nanos()
}

/// The time of a newest row of `prices`, and none where there is no row.
pub fn newest(prices: &Vec<Price>) -> (latest: Option<Timestamp>)
    ensures
        latest is None <==> prices@.len() == 0,
        latest matches Some(t) ==> is_newest(prices@, t),
{
    if prices.len() == 0 {
        return None;
    }
    let mut best: Timestamp = prices[0].timestamp;
    let mut k: usize = 1;
    while k < prices.len()
        invariant
            1 <= k <= prices@.len(),
            exists|i: int| 0 <= i < k && #[trigger] prices@[i].timestamp == best,
            forall|j: int|
                0 <= j < k ==> (#[trigger] prices@[j].timestamp).as_nanos() <= best.as_nanos(),
        decreases prices@.len() - k,
    {
        let t: Timestamp = prices[k].timestamp;
        if t.nanos_since_epoch() > best.nanos_since_epoch() {
            best = t;
        }
        k = k + 1;
    }
    Some(best)
}

/// Whether `prices` hold an observation made at most an hour before `now`:
/// never where there is no row, and otherwise as the newest row decides.
pub fn is_recent(prices: &Vec<Price>, now: Timestamp) -> (b: bool)
    ensures
        b == recent(prices@, now),
        prices@.len() == 0 ==> !b,
{
    match newest(prices) {
        None => false,
        Some(t) => {
            let b: bool = is_fresh(now, t);
            proof {
                if !b {
                    assert forall|i: int| 0 <= i < prices@.len() implies !fresh(
                        now,
                        #[trigger] prices@[i].timestamp,
                    ) by {
                        assert(prices@[i].timestamp.as_nanos() <= t.as_nanos());
                    }
                }
            }
            b
        },
    }
}

} // verus!
