//! Keeps traits of this crate from being implemented outside it.

use vstd::prelude::*;

verus! {

/// A trait that only this crate can implement: a public trait with this one
/// as supertrait has no implementations but the crate's own.
pub trait Sealed {

}

} // verus!
