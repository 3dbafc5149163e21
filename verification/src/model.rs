//! The rows of the store and the values handed across the command surface.
//!
//! Amounts (`price`, `value`) are signed counts of millionths of a Chaos Orb.

use vstd::prelude::*;

verus! {

/// A point in time without a time zone: whole seconds since the Unix epoch
/// and the nanoseconds past that second.
#[derive(Clone, Copy, Debug, PartialEq, Eq, Structural)]
pub struct Timestamp {
    pub secs: i64,
    pub nanos: u32,
}

impl Timestamp {
    /// The point in time as one count of nanoseconds since the epoch.
    pub open spec fn as_nanos(self) -> int {
        self.secs * 1_000_000_000 + self.nanos
    }

    /// The point in time `secs` seconds and `nanos` nanoseconds after the epoch.
    pub fn new(secs: i64, nanos: u32) -> (t: Timestamp)
        ensures
            t.secs == secs,
            t.nanos == nanos,
    {
        Timestamp { secs, nanos }
    }

    /// The count of nanoseconds since the epoch.
    pub fn nanos_since_epoch(&self) -> (n: i128)
        ensures
            n == self.as_nanos(),
    {
        let s: i128 = self.secs as i128;
        let f: i128 = self.nanos as i128;
        s * 1_000_000_000 + f
    }
}

/// A stash tab as the game reports it.
#[derive(Clone, Debug, PartialEq, Eq)]
pub struct Stash {
    pub id: String,
    pub name: String,
    pub stash_type: String,
    pub league: String,
}

/// A named selection of stash tabs, priced in one league.
#[derive(Clone, Debug, PartialEq, Eq)]
pub struct Profile {
    pub id: i64,
    pub name: String,
    pub league_id: String,
    pub pricing_league: String,
}

/// A profile together with the identifiers of its stash tabs.
#[derive(Clone, Debug, PartialEq, Eq)]
pub struct ProfileWithStashes {
    pub profile: Profile,
    pub stashes: Vec<String>,
}

/// One link between a profile and a stash tab.
#[derive(Clone, Debug, PartialEq, Eq)]
pub struct ProfileStashAssoc {
    pub profile_id: i64,
    pub stash_id: String,
}

/// A record of a profile's inventory at one moment, bound for good to the
/// price revision that was current when it was made.
#[derive(Clone, Copy, Debug, PartialEq, Eq, Structural)]
pub struct Snapshot {
    pub id: i64,
    pub profile_id: i64,
    pub timestamp: Timestamp,
    pub pricing_revision: i64,
    pub value: i128,
}

/// An inventory item as the game reports it.
#[derive(Clone, Debug, PartialEq, Eq)]
pub struct Item {
    pub verified: bool,
    pub w: i64,
    pub h: i64,
    pub icon: String,
    pub support: Option<bool>,
    pub stack_size: Option<i64>,
    pub max_stack_size: Option<i64>,
    pub stack_size_text: Option<String>,
    pub league: Option<String>,
    pub id: Option<String>,
    pub fractured: Option<bool>,
    pub synthesized: Option<bool>,
    pub name: String,
    pub type_line: String,
    pub base_type: String,
    pub identified: bool,
    pub item_level: Option<i64>,
    pub frame_type: i64,
}

/// An item stored under a snapshot, with the value of its whole stack.
#[derive(Clone, Debug, PartialEq, Eq)]
pub struct ItemRow {
    pub id: i64,
    pub snapshot_id: i64,
    pub stash_id: String,
    pub data: Item,
    pub value: i128,
}

/// One price observation: what one unit of `name` cost in `league` when
/// revision `revision` was taken.
#[derive(Clone, Debug, PartialEq, Eq)]
pub struct Price {
    pub id: i64,
    pub name: String,
    pub price: i64,
    pub revision: i64,
    pub fully_linked: bool,
    pub timestamp: Timestamp,
    pub league: String,
}

/// An item with the value of its whole stack.
#[derive(Clone, Debug, PartialEq, Eq)]
pub struct ItemWithPrice {
    pub item: Item,
    pub price: i128,
}

/// A snapshot's items and its total, in Chaos Orbs and against the price
/// of one Divine Orb.
#[derive(Clone, Debug, PartialEq, Eq)]
pub struct UseEffectResponse {
    pub items: Vec<ItemWithPrice>,
    pub total_chaos: i128,
    pub total_div: Ratio,
}

/// A quotient kept as its two terms; the denominator may be zero.
#[derive(Clone, Copy, Debug, PartialEq, Eq, Structural)]
pub struct Ratio {
    pub numerator: i128,
    pub denominator: i64,
}

/// The quotient of `ratio` in millionths, rounded down: defined where the
/// numerator is not negative, the denominator is positive, and the
/// numerator in millionths is still an amount.
pub open spec fn millionths_of(ratio: Ratio) -> Option<int> {
    if ratio.numerator >= 0 && ratio.denominator > 0 && ratio.numerator * 1_000_000
        <= i128::MAX {
        Some(ratio.numerator * 1_000_000 / (ratio.denominator as int))
    } else {
        None
    }
}

impl Ratio {
    /// The quotient in millionths, rounded down, where it is defined.
    pub fn millionths(&self) -> (q: Option<i128>)
        ensures
            match q {
                Some(n) => millionths_of(*self) == Some(n as int),
                None => millionths_of(*self) is None,
            },
    {
        if self.numerator < 0 || self.denominator <= 0 {
            return None;
        }
        match self.numerator.checked_mul(1_000_000) {
            Some(scaled) => {
                let top: u128 = scaled as u128;
                let bottom: u128 = self.denominator as u128;
                let q: u128 = top / bottom;
                Some(q as i128)
            },
            None => None,
        }
    }
}

fn copy_text(s: &Option<String>) -> (r: Option<String>)
    ensures
        r == *s,
{
    match s {
        Some(t) => Some(t.clone()),
        None => None,
    }
}

impl Stash {
    /// A second stash equal to this one in every field.
    pub fn duplicate(&self) -> (r: Stash)
        ensures
            r == *self,
    {
        Stash {
            id: self.id.clone(),
            name: self.name.clone(),
            stash_type: self.stash_type.clone(),
            league: self.league.clone(),
        }
    }
}

impl Profile {
    /// A second profile equal to this one in every field.
    pub fn duplicate(&self) -> (r: Profile)
        ensures
            r == *self,
    {
        Profile {
            id: self.id,
            name: self.name.clone(),
            league_id: self.league_id.clone(),
            pricing_league: self.pricing_league.clone(),
        }
    }
}

impl Item {
    /// A second item equal to this one in every field.
    pub fn duplicate(&self) -> (r: Item)
        ensures
            r == *self,
    {
        Item {
            verified: self.verified,
            w: self.w,
            h: self.h,
            icon: self.icon.clone(),
            support: self.support,
            stack_size: self.stack_size,
            max_stack_size: self.max_stack_size,
            stack_size_text: copy_text(&self.stack_size_text),
            league: copy_text(&self.league),
            id: copy_text(&self.id),
            fractured: self.fractured,
            synthesized: self.synthesized,
            name: self.name.clone(),
            type_line: self.type_line.clone(),
            base_type: self.base_type.clone(),
            identified: self.identified,
            item_level: self.item_level,
            frame_type: self.frame_type,
        }
    }
}

} // verus!
