use vstd::prelude::*;

verus! {

/// Keeps the set of mode markers closed: only this crate can name the trait.
pub trait Sealed {

}

} // verus!
