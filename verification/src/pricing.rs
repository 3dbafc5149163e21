//! The rules by which one item is priced: which name is looked up, what a
//! unit costs, what a stack is worth, and how line values add up.

use crate::model::{Item, Timestamp};
use vstd::prelude::*;

verus! {

/// How many units of account make one Chaos Orb.
pub const MICROS_PER_CHAOS: i64 = 1_000_000;

/// The longest age, in nanoseconds, at which prices still count as recent.
pub const FRESH_NANOS: i128 = 3_600_000_000_000;

/// The link count that marks an item as fully linked.
pub const FULL_LINKS: isize = 6;

/// The name of the currency in which every price is counted.
pub open spec fn chaos_orb() -> Seq<char> {
    "Chaos Orb"@
}

/// The name of the currency in which totals are also reported.
pub open spec fn divine_orb() -> Seq<char> {
    "Divine Orb"@
}

/// Whether a reported link count marks a fully linked item.
pub open spec fn fully_linked(links: Option<isize>) -> bool {
    links == Some(FULL_LINKS)
}

/// Whether a reported link count marks a fully linked item: exactly six
/// links do, any other count and no count do not.
pub fn is_fully_linked(links: Option<isize>) -> (b: bool)
    ensures
        b == fully_linked(links),
{
    match links {
        Some(n) => n == FULL_LINKS,
        None => false,
    }
}

/// The revision after `current`, the highest revision on record: one when
/// there is none on record, and none when `current` is the last number.
pub open spec fn revision_after(current: Option<i64>) -> Option<i64> {
    match current {
        None => Some(1i64),
        Some(r) => if r < i64::MAX {
            Some((r + 1) as i64)
        } else {
            None
        },
    }
}

/// The revision to take next, given the highest revision on record.
pub fn next_revision(current: Option<i64>) -> (next: Option<i64>)
    ensures
        next == revision_after(current),
{
    match current {
        None => Some(1),
        Some(r) => if r < i64::MAX {
            Some(r + 1)
        } else {
            None
        },
    }
}

/// The name under which an item is looked up: its name, or its type line
/// where it has no name.
pub open spec fn lookup_name_of(item: Item) -> Seq<char> {
    if item.name@.len() > 0 {
        item.name@
    } else {
        item.type_line@
    }
}

/// The name under which `item` is looked up.
pub fn lookup_name(item: &Item) -> (name: String)
    ensures
        name@ == lookup_name_of(*item),
{
    if item.name.as_str().unicode_len() > 0 {
        item.name.clone()
    } else {
        item.type_line.clone()
    }
}

/// What one unit costs: a Chaos Orb always costs one Chaos Orb, anything
/// else costs what the catalog says, and nothing where the catalog is silent.
pub open spec fn unit_price_of(name: Seq<char>, found: Option<i64>) -> int {
    if name == chaos_orb() {
        MICROS_PER_CHAOS as int
    } else {
        match found {
            Some(p) => p as int,
            None => 0,
        }
    }
}

/// The unit price of `name`, given what the catalog holds for it.
pub fn unit_price(name: &str, found: Option<i64>) -> (unit: i64)
    ensures
        unit == unit_price_of(name@, found),
{
    if is_chaos_orb(name) {
        MICROS_PER_CHAOS
    } else {
        match found {
            Some(p) => p,
            None => 0,
        }
    }
}

/// Whether `name` is the name of the Chaos Orb, letter for letter.
pub fn is_chaos_orb(name: &str) -> (b: bool)
    ensures
        b == (name@ == chaos_orb()),
{
    same_text(name, "Chaos Orb")
}

/// Whether two texts hold the same characters.
pub fn same_text(a: &str, b: &str) -> (same: bool)
    ensures
        same == (a@ == b@),
{
    let n: usize = a.unicode_len();
    if n != b.unicode_len() {
        return false;
    }
    let mut k: usize = 0;
    while k < n
        invariant
            n == a@.len(),
            n == b@.len(),
            k <= n,
            a@.take(k as int) == b@.take(k as int),
        decreases n - k,
    {
        if a.get_char(k) != b.get_char(k) {
            return false;
        }
        assert(a@.take(k + 1) == a@.take(k as int).push(a@[k as int]));
        assert(b@.take(k + 1) == b@.take(k as int).push(b@[k as int]));
        k = k + 1;
    }
    assert(a@ == a@.take(n as int));
    assert(b@ == b@.take(n as int));
    true
}

/// How many units a stack holds: its size, and one where no size is
/// reported or the reported size is below one.
pub open spec fn stack_count(stack_size: Option<i64>) -> int {
    match stack_size {
        Some(n) => if n > 1 {
            n as int
        } else {
            1
        },
        None => 1,
    }
}

/// What a stack is worth: the unit price times the number of units.
pub open spec fn line_value_of(unit: int, stack_size: Option<i64>) -> int {
    unit * stack_count(stack_size)
}

/// What a stack of `stack_size` units is worth at `unit` apiece.
pub fn line_value(unit: i64, stack_size: Option<i64>) -> (value: i128)
    ensures
        value == line_value_of(unit as int, stack_size),
{
    let count: i64 = match stack_size {
        Some(n) => if n > 1 {
            n
        } else {
            1
        },
        None => 1,
    };
    let u: i128 = unit as i128;
    let c: i128 = count as i128;
    assert(-0x4000_0000_0000_0000_0000_0000_0000_0000 <= u * c
        <= 0x4000_0000_0000_0000_0000_0000_0000_0000) by (nonlinear_arith)
        requires
            -0x8000_0000_0000_0000 <= u <= 0x8000_0000_0000_0000,
            1 <= c <= 0x8000_0000_0000_0000,
    ;
    u * c
}

/// `x` held to the range of an amount.
pub open spec fn capped(x: int) -> int {
    if x > i128::MAX {
        i128::MAX as int
    } else if x < i128::MIN {
        i128::MIN as int
    } else {
        x
    }
}

/// The sum of two amounts, held to the range of an amount.
pub fn add_value(total: i128, value: i128) -> (sum: i128)
    ensures
        sum == capped(total + value),
{
    match total.checked_add(value) {
        Some(s) => s,
        None => if value > 0 {
            i128::MAX
        } else {
            i128::MIN
        },
    }
}

/// The total of `values`, added up from the first to the last, each sum
/// held to the range of an amount.
pub open spec fn total_of(values: Seq<int>) -> int
    decreases values.len(),
{
    if values.len() == 0 {
        0
    } else {
        capped(total_of(values.drop_last()) + values.last())
    }
}

/// Whether prices last observed at `latest` still count as recent at `now`:
/// they do up to and including one hour of age.
pub open spec fn fresh(now: Timestamp, latest: Timestamp) -> bool {
    now.as_nanos() - latest.as_nanos() <= FRESH_NANOS
}

/// Whether prices last observed at `latest` still count as recent at `now`.
pub fn is_fresh(now: Timestamp, latest: Timestamp) -> (b: bool)
    ensures
        b == fresh(now, latest),
{
    now.nanos_since_epoch() - latest.nanos_since_epoch() <= FRESH_NANOS
}

} // verus!
