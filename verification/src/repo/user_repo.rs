//! What the user store reports back to the library.
use vstd::prelude::*;

verus! {

/// A failure of the user store (the database), with its description.
#[derive(Debug, Clone, PartialEq, Eq)]
pub struct StoreError {
    pub message: String,
}

} // verus!
