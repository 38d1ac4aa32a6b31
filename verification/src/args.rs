//! What a caller asks of a conversion.

use vstd::prelude::*;

verus! {

/// A request and how it is to be answered.
#[derive(Debug)]
pub struct Args {
    // == Main Input ==
    /// The request, as in `10 m/s => mi/h`.
    pub input: String,
    // == Arguments ==
    /// Shows the internal conversion steps between units.
    pub debug: bool,
    /// Print the dimensions of the input and output units.
    pub dimensions: bool,
}

} // verus!
