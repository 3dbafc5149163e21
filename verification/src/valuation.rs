//! Valuation of an item list against one revision of one league's prices.

use crate::catalog::{find_price, price_found};
use crate::model::{Item, Price};
use crate::pricing::{
    add_value, line_value, line_value_of, lookup_name, lookup_name_of, total_of, unit_price,
    unit_price_of,
};
use vstd::prelude::*;

verus! {

/// The unit price at which `item` is valued: what the first observation
/// that its lookup name matches at `revision` in `league` says, nothing
/// where none matches, and one Chaos Orb for the Chaos Orb whatever the
/// observations say.
pub open spec fn item_unit_price(
    prices: Seq<Price>,
    revision: i64,
    league: Seq<char>,
    item: Item,
) -> int {
    unit_price_of(
        lookup_name_of(item),
        price_found(prices, lookup_name_of(item), false, revision, Some(league)),
    )
}

/// What the stack of `item` is worth.
pub open spec fn item_value(prices: Seq<Price>, revision: i64, league: Seq<char>, item: Item) -> int {
    line_value_of(item_unit_price(prices, revision, league, item), item.stack_size)
}

/// What each of `items` is worth, in their order.
pub open spec fn item_values(
    prices: Seq<Price>,
    revision: i64,
    league: Seq<char>,
    items: Seq<Item>,
) -> Seq<int> {
    Seq::new(items.len(), |k: int| item_value(prices, revision, league, items[k]))
}

/// What `items` are worth together.
pub open spec fn valuation_of(
    prices: Seq<Price>,
    revision: i64,
    league: Seq<char>,
    items: Seq<Item>,
) -> int {
    total_of(item_values(prices, revision, league, items))
}

/// What the stack of `item` is worth at `revision` in `league`.
pub fn value_item(prices: &Vec<Price>, revision: i64, league: &str, item: &Item) -> (value: i128)
    ensures
        value == item_value(prices@, revision, league@, *item),
{
    let name: String = lookup_name(item);
    let found: Option<i64> = find_price(prices, name.as_str(), false, revision, Some(league));
    let unit: i64 = unit_price(name.as_str(), found);
    line_value(unit, item.stack_size)
}

/// What each of `items` is worth at `revision` in `league`, and what they
/// are worth together.
pub fn valuate(prices: &Vec<Price>, revision: i64, league: &str, items: &Vec<Item>) -> (r: (
    Vec<i128>,
    i128,
))
    ensures
        r.0@.len() == items@.len(),
        forall|k: int|
            0 <= k < items@.len() ==> #[trigger] r.0@[k] == item_value(
                prices@,
                revision,
                league@,
                items@[k],
            ),
        r.1 == valuation_of(prices@, revision, league@, items@),
{
    let mut values: Vec<i128> = Vec::new();
    let mut total: i128 = 0;
    let mut k: usize = 0;
    while k < items.len()
        invariant
            k <= items@.len(),
            values@.len() == k,
            forall|j: int|
                0 <= j < k ==> #[trigger] values@[j] == item_value(
                    prices@,
                    revision,
                    league@,
                    items@[j],
                ),
            total == valuation_of(prices@, revision, league@, items@.take(k as int)),
        decreases items@.len() - k,
    {
        let value: i128 = value_item(prices, revision, league, &items[k]);
        proof {
            let longer = item_values(prices@, revision, league@, items@.take(k + 1));
            assert(longer.drop_last() == item_values(
                prices@,
                revision,
                league@,
                items@.take(k as int),
            ));
            assert(longer.last() == value);
        }
        total = add_value(total, value);
        values.push(value);
        k = k + 1;
    }
    assert(items@.take(k as int) == items@);
    (values, total)
}

} // verus!
