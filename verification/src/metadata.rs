use vstd::prelude::*;

verus! {

/// Descriptive record of the token: a name, a symbol and a decimal
/// precision. It is written exactly once per initialization and is
/// read-only thereafter; no operation updates it in place.
#[derive(Clone, Debug, PartialEq, Eq)]
pub struct TokenMetadata {
    pub name: String,
    pub symbol: String,
    pub decimals: u32,
}

} // verus!
