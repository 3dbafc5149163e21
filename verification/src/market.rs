//! What is asked of the market-data service: one document for each league
//! and category, in a fixed order, and what each document brings.

use vstd::prelude::*;
use vstd::string::StringExecFns;

verus! {

/// How many leagues prices are tracked in.
pub const LEAGUE_COUNT: usize = 2;

/// How many categories are served by the currency overview.
pub const CURRENCY_CATEGORY_COUNT: usize = 2;

/// How many categories are served by the item overview.
pub const ITEM_CATEGORY_COUNT: usize = 18;

/// How many documents one ingestion asks for.
pub const REQUEST_COUNT: usize = 40;

/// One line of a market document: a name, what one unit costs where the
/// line says so, and how many links the item has where it says so.
#[derive(Clone, Debug, PartialEq, Eq)]
pub struct MarketLine {
    pub name: String,
    pub price: Option<i64>,
    pub links: Option<isize>,
}

/// What one request brought: the lines of the document, or the words of
/// the failure to fetch or decode it.
#[derive(Debug, PartialEq, Eq)]
pub struct Feed {
    pub league: String,
    pub lines: Result<Vec<MarketLine>, String>,
}

/// One request to the market-data service.
#[derive(Clone, Debug, PartialEq, Eq)]
pub struct MarketRequest {
    pub league: String,
    pub category: String,
    pub currency: bool,
}

/// The name of the `k`-th league.
pub open spec fn league_at(k: int) -> Seq<char> {
    if k == 0 {
        "Standard"@
    } else {
        "Ancestor"@
    }
}

/// The name of the `k`-th currency category.
pub open spec fn currency_category_at(k: int) -> Seq<char> {
    if k == 0 {
        "Currency"@
    } else {
        "Fragment"@
    }
}

/// The name of the `k`-th item category.
pub open spec fn item_category_at(k: int) -> Seq<char> {
    if k == 0 {
        "DivinationCard"@
    } else if k == 1 {
        "Artifact"@
    } else if k == 2 {
        "Oil"@
    } else if k == 3 {
        "Incubator"@
    } else if k == 4 {
        "UniqueWeapon"@
    } else if k == 5 {
        "UniqueArmour"@
    } else if k == 6 {
        "UniqueAccessory"@
    } else if k == 7 {
        "UniqueFlask"@
    } else if k == 8 {
        "UniqueJewel"@
    } else if k == 9 {
        "UniqueMap"@
    } else if k == 10 {
        "DeliriumOrb"@
    } else if k == 11 {
        "Invitation"@
    } else if k == 12 {
        "Scarab"@
    } else if k == 13 {
        "Fossil"@
    } else if k == 14 {
        "Resonator"@
    } else if k == 15 {
        "Beast"@
    } else if k == 16 {
        "Essence"@
    } else {
        "Vial"@
    }
}

/// Whether the `k`-th request of an ingestion goes to the currency overview.
pub open spec fn currency_at(k: int) -> bool {
    k % 20 < 2
}

/// The category of the `k`-th request of an ingestion: within each league
/// the currency categories come first, then the item categories.
pub open spec fn category_at(k: int) -> Seq<char> {
    if currency_at(k) {
        currency_category_at(k % 20)
    } else {
        item_category_at(k % 20 - 2)
    }
}

/// The address of the document for `category` in `league`.
pub open spec fn url_of(league: Seq<char>, category: Seq<char>, currency: bool) -> Seq<char> {
    (if currency {
        "https://poe.ninja/api/data/currencyoverview?league="@
    } else {
        "https://poe.ninja/api/data/itemoverview?league="@
    }) + league + "&type="@ + category
}

fn league_name(k: usize) -> (name: &'static str)
    ensures
        name@ == league_at(k as int),
{
    if k == 0 {
        "Standard"
    } else {
        "Ancestor"
    }
}

fn currency_category_name(k: usize) -> (name: &'static str)
    ensures
        name@ == currency_category_at(k as int),
{
    if k == 0 {
        "Currency"
    } else {
        "Fragment"
    }
}

fn item_category_name(k: usize) -> (name: &'static str)
    ensures
        name@ == item_category_at(k as int),
{
    if k == 0 {
        "DivinationCard"
    } else if k == 1 {
        "Artifact"
    } else if k == 2 {
        "Oil"
    } else if k == 3 {
        "Incubator"
    } else if k == 4 {
        "UniqueWeapon"
    } else if k == 5 {
        "UniqueArmour"
    } else if k == 6 {
        "UniqueAccessory"
    } else if k == 7 {
        "UniqueFlask"
    } else if k == 8 {
        "UniqueJewel"
    } else if k == 9 {
        "UniqueMap"
    } else if k == 10 {
        "DeliriumOrb"
    } else if k == 11 {
        "Invitation"
    } else if k == 12 {
        "Scarab"
    } else if k == 13 {
        "Fossil"
    } else if k == 14 {
        "Resonator"
    } else if k == 15 {
        "Beast"
    } else if k == 16 {
        "Essence"
    } else {
        "Vial"
    }
}

/// The leagues in which prices are tracked.
pub fn get_pricing_leagues() -> (leagues: Vec<String>)
    ensures
        leagues@.len() == LEAGUE_COUNT,
        forall|k: int| 0 <= k < LEAGUE_COUNT ==> (#[trigger] leagues@[k])@ == league_at(k),
{
    let mut leagues: Vec<String> = Vec::new();
    let mut k: usize = 0;
    while k < LEAGUE_COUNT
        invariant
            k <= LEAGUE_COUNT,
            leagues@.len() == k,
            forall|j: int| 0 <= j < k ==> (#[trigger] leagues@[j])@ == league_at(j),
        decreases LEAGUE_COUNT - k,
    {
        leagues.push(String::from_str(league_name(k)));
        k = k + 1;
    }
    leagues
}

/// The requests of one ingestion, in the order in which they are made:
/// league by league, and within a league category by category.
pub fn requests() -> (plan: Vec<MarketRequest>)
    ensures
        plan@.len() == REQUEST_COUNT,
        forall|k: int|
            0 <= k < REQUEST_COUNT ==> {
                &&& (#[trigger] plan@[k]).league@ == league_at(k / 20)
                &&& plan@[k].category@ == category_at(k)
                &&& plan@[k].currency == currency_at(k)
            },
{
    let mut plan: Vec<MarketRequest> = Vec::new();
    let mut k: usize = 0;
    while k < REQUEST_COUNT
        invariant
            k <= REQUEST_COUNT,
            plan@.len() == k,
            forall|j: int|
                0 <= j < k ==> {
                    &&& (#[trigger] plan@[j]).league@ == league_at(j / 20)
                    &&& plan@[j].category@ == category_at(j)
                    &&& plan@[j].currency == currency_at(j)
                },
        decreases REQUEST_COUNT - k,
    {
        let slot: usize = k % 20;
        let currency: bool = slot < CURRENCY_CATEGORY_COUNT;
        let category: &'static str = if currency {
            currency_category_name(slot)
        } else {
            item_category_name(slot - CURRENCY_CATEGORY_COUNT)
        };
        plan.push(
            MarketRequest {
                league: String::from_str(league_name(k / 20)),
                category: String::from_str(category),
                currency,
            },
        );
        k = k + 1;
    }
    plan
}

/// The address from which `request` is served.
pub fn request_url(request: &MarketRequest) -> (url: String)
    ensures
        url@ == url_of(request.league@, request.category@, request.currency),
{
    let base: &'static str = if request.currency {
        "https://poe.ninja/api/data/currencyoverview?league="
    } else {
        "https://poe.ninja/api/data/itemoverview?league="
    };
    String::from_str(base).concat(request.league.as_str()).concat("&type=").concat(
        request.category.as_str(),
    )
}

} // verus!
