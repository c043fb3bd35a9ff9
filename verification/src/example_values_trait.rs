use vstd::prelude::*;

verus! {

/// Implemented by parameter types to show a possible usage.
pub trait ExampleValues: Sized {
    fn example() -> Self;
}

} // verus!
