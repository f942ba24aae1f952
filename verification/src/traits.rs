use vstd::prelude::*;

verus! {

/// Values that carry an identifier.
pub trait Identifiable {
    type Identifier;

    fn id(&self) -> &Self::Identifier;
}

} // verus!
