//! Parses unit expressions such as `m/s^2`, `kWh` or `mph` into dimension
//! vectors, compares them and plans the conversion between two of them.
//!
//! An expression goes through three stages: the tokenizer reads its text
//! into tokens, the treeifier builds a tree from the tokens by precedence,
//! and the expander lists the units of the tree, each with its net power.
//! The result is a [`dimension::Dimensions`]. Two of them agree where
//! their powers agree space by space; between two that agree,
//! [`dimension::Dimensions::convert`] gives the steps that take a value
//! from the one to the other.
//!
//! The numeric side of a conversion (applying a unit's formula to a value)
//! is left to the caller: this crate decides which formula is applied, in
//! which direction, how often and with which power of ten.

use vstd::prelude::*;

pub mod args;
pub mod conversion;
pub mod dimension;
pub mod input;
pub mod listing;
pub mod prefix;
pub mod shorthand;
pub mod text;
pub mod units;

verus! {

/// The version of this library.
pub const VERSION: &'static str = "0.1.0";

/// The version of this library.
pub fn version() -> (version: String)
    ensures
        version@ == VERSION@,
{
    VERSION.to_owned()
}

} // verus!
