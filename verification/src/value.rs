use vstd::prelude::*;

verus! {

/// An IEEE 754 binary64 number, held by its bit pattern.
///
/// The library never does arithmetic on such a number and never prints one: it
/// carries the sixty-four bits from the gateway to the presentation layer
/// unchanged.
#[derive(Clone, Copy, Debug, PartialEq, Eq, Structural)]
pub struct Binary64 {
    pub bits: u64,
}

/// A number as a report shows it.
#[derive(Clone, Copy, Debug, PartialEq, Eq, Structural)]
pub enum Quantity {
    /// A number that the gateway reported.
    Reported(Binary64),
    /// The binary64 product of two reported numbers, left to the presentation
    /// layer to form.
    Product(Binary64, Binary64),
}

} // verus!
