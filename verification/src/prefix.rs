//! Metric prefixes and the lookup of a name that may carry one.

use crate::text::{begins_with, strip_start};
use crate::units::{
    find_unit, unit_named, ConversionType, ConversionTypeView, TableView, UnitTable,
};
use vstd::prelude::*;

verus! {

/// A metric prefix: `kilo`, written `k`, is ten to the power of 3.
#[derive(Debug, Clone, Copy, PartialEq, Eq)]
pub struct Prefix {
    pub name: &'static str,
    pub symbol: &'static str,
    pub power: i32,
}

/// The metric prefixes as values, from the largest to the smallest.
pub open spec fn prefixes_spec() -> Seq<Prefix> {
    seq![
        Prefix { name: "quetta", symbol: "Q", power: 30 },
        Prefix { name: "ronna", symbol: "R", power: 27 },
        Prefix { name: "yotta", symbol: "Y", power: 24 },
        Prefix { name: "zetta", symbol: "Z", power: 21 },
        Prefix { name: "exa", symbol: "E", power: 18 },
        Prefix { name: "peta", symbol: "P", power: 15 },
        Prefix { name: "tera", symbol: "T", power: 12 },
        Prefix { name: "giga", symbol: "G", power: 9 },
        Prefix { name: "mega", symbol: "M", power: 6 },
        Prefix { name: "kilo", symbol: "k", power: 3 },
        Prefix { name: "hecto", symbol: "h", power: 2 },
        Prefix { name: "deca", symbol: "da", power: 1 },
        Prefix { name: "deci", symbol: "d", power: -1i32 },
        Prefix { name: "centi", symbol: "c", power: -2i32 },
        Prefix { name: "milli", symbol: "m", power: -3i32 },
        Prefix { name: "micro", symbol: "u", power: -6i32 },
        Prefix { name: "nano", symbol: "n", power: -9i32 },
        Prefix { name: "pico", symbol: "p", power: -12i32 },
        Prefix { name: "femto", symbol: "f", power: -15i32 },
        Prefix { name: "atto", symbol: "a", power: -18i32 },
        Prefix { name: "zepto", symbol: "z", power: -21i32 },
        Prefix { name: "yocto", symbol: "y", power: -24i32 },
        Prefix { name: "ronto", symbol: "r", power: -27i32 },
        Prefix { name: "quecto", symbol: "q", power: -30i32 },
    ]
}

/// The metric prefixes, from the largest to the smallest.
pub fn prefixes() -> (prefixes: Vec<Prefix>)
    ensures
        prefixes@ == prefixes_spec(),
{
    let mut prefixes: Vec<Prefix> = Vec::new();
    prefixes.push(Prefix { name: "quetta", symbol: "Q", power: 30 });
    prefixes.push(Prefix { name: "ronna", symbol: "R", power: 27 });
    prefixes.push(Prefix { name: "yotta", symbol: "Y", power: 24 });
    prefixes.push(Prefix { name: "zetta", symbol: "Z", power: 21 });
    prefixes.push(Prefix { name: "exa", symbol: "E", power: 18 });
    prefixes.push(Prefix { name: "peta", symbol: "P", power: 15 });
    prefixes.push(Prefix { name: "tera", symbol: "T", power: 12 });
    prefixes.push(Prefix { name: "giga", symbol: "G", power: 9 });
    prefixes.push(Prefix { name: "mega", symbol: "M", power: 6 });
    prefixes.push(Prefix { name: "kilo", symbol: "k", power: 3 });
    prefixes.push(Prefix { name: "hecto", symbol: "h", power: 2 });
    prefixes.push(Prefix { name: "deca", symbol: "da", power: 1 });
    prefixes.push(Prefix { name: "deci", symbol: "d", power: -1 });
    prefixes.push(Prefix { name: "centi", symbol: "c", power: -2 });
    prefixes.push(Prefix { name: "milli", symbol: "m", power: -3 });
    prefixes.push(Prefix { name: "micro", symbol: "u", power: -6 });
    prefixes.push(Prefix { name: "nano", symbol: "n", power: -9 });
    prefixes.push(Prefix { name: "pico", symbol: "p", power: -12 });
    prefixes.push(Prefix { name: "femto", symbol: "f", power: -15 });
    prefixes.push(Prefix { name: "atto", symbol: "a", power: -18 });
    prefixes.push(Prefix { name: "zepto", symbol: "z", power: -21 });
    prefixes.push(Prefix { name: "yocto", symbol: "y", power: -24 });
    prefixes.push(Prefix { name: "ronto", symbol: "r", power: -27 });
    prefixes.push(Prefix { name: "quecto", symbol: "q", power: -30 });
    assert(prefixes@ =~= prefixes_spec());
    prefixes
}

/// What `text` stands for once `start` is taken off its front: a metric
/// unit, or nothing.
pub open spec fn behind(table: TableView, text: Seq<char>, start: Seq<char>) -> Option<
    ConversionTypeView,
> {
    if begins_with(text, start) {
        match unit_named(table, text.skip(start.len() as int)) {
            Some(unit) => if unit.is_metric() {
                Some(unit)
            } else {
                None
            },
            None => None,
        }
    } else {
        None
    }
}

/// The first prefix, from position `from` on, whose symbol or else whose
/// name `text` begins with and leaves a metric unit behind; with that unit.
pub open spec fn prefixed(table: TableView, text: Seq<char>, from: int) -> Option<
    (ConversionTypeView, Option<Prefix>),
>
    decreases table.prefixes.len() - from,
{
    if from < 0 || from >= table.prefixes.len() {
        None
    } else {
        let prefix = table.prefixes[from];
        match behind(table, text, prefix.symbol@) {
            Some(unit) => Some((unit, Some(prefix))),
            None => match behind(table, text, prefix.name@) {
                Some(unit) => Some((unit, Some(prefix))),
                None => prefixed(table, text, from + 1),
            },
        }
    }
}

/// What `text` stands for: the whole of it as a name where that is one,
/// else a metric unit behind a prefix.
pub open spec fn resolved(table: TableView, text: Seq<char>) -> Option<
    (ConversionTypeView, Option<Prefix>),
> {
    match unit_named(table, text) {
        Some(unit) => Some((unit, None)),
        None => prefixed(table, text, 0),
    }
}

fn after<'a>(table: &'a UnitTable, text: &str, start: &str) -> (found: Option<ConversionType<'a>>)
    ensures
        match found {
            Some(unit) => behind(table@, text@, start@) == Some(unit@),
            None => behind(table@, text@, start@) is None,
        },
{
    match strip_start(text, start) {
        Some(rest) => match find_unit(table, rest) {
            Some(unit) => if unit.is_metric() {
                Some(unit)
            } else {
                None
            },
            None => None,
        },
        None => None,
    }
}

/// Resolves a name that may carry a metric prefix.
pub fn get<'a>(table: &'a UnitTable, text: &str) -> (found: Option<(ConversionType<'a>, Option<Prefix>)>)
    ensures
        match found {
            Some((unit, prefix)) => resolved(table@, text@) == Some((unit@, prefix)),
            None => resolved(table@, text@) is None,
        },
{
    if let Some(unit) = find_unit(table, text) {
        return Some((unit, None));
    }
    let mut i: usize = 0;
    while i < table.prefixes.len()
        invariant
            i <= table.prefixes@.len(),
            unit_named(table@, text@) is None,
            resolved(table@, text@) == prefixed(table@, text@, i as int),
        decreases table.prefixes@.len() - i,
    {
        let prefix = table.prefixes[i];
        if let Some(unit) = after(table, text, prefix.symbol) {
            return Some((unit, Some(prefix)));
        }
        if let Some(unit) = after(table, text, prefix.name) {
            return Some((unit, Some(prefix)));
        }
        i += 1;
    }
    None
}

} // verus!
