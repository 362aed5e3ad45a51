use vstd::prelude::*;

verus! {

/// A JSON number as the service reported it, held as its IEEE-754
/// binary64 encoding so that it passes through unchanged.
#[derive(Debug, Clone, Copy, PartialEq, Eq, Structural)]
pub struct Number {
    pub bits: u64,
}

} // verus!
