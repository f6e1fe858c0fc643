//! Keeps the retrieval trait closed to other crates.
use vstd::prelude::*;

verus! {

/// Only this crate can name this trait, so only this crate decides which types
/// offer retrieval of a context.
pub trait Sealed {

}

} // verus!
