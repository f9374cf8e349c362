use vstd::prelude::*;

verus! {

/// The error a callback reports back.
#[derive(Debug, Clone, Copy, PartialEq, Eq)]
pub enum CallbackError<TInner> {
    Inner(TInner),
}

} // verus!
