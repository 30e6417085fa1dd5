use vstd::prelude::*;

use crate::result::Error;

verus! {

/// This is a `trait` that specifies the conditions a type `T` should satisfy.
///
/// An implementation checks `target` and either accepts it, handing it back,
/// or refuses it with an [`Error`] that carries it and says why.
pub trait Rule {
    type Item;

    fn validate(target: Self::Item) -> Result<Self::Item, Error<Self::Item>>;
}

} // verus!
